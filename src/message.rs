use vstd::prelude::*;
use vstd::string::StringExecFns;

verus! {

/// Whether `email_address` accepts the text as an address.
pub uninterp spec fn valid_address(s: Seq<char>) -> bool;

/// Relies on email_address::EmailAddress::is_valid: whether the text parses as
/// an address under the crate's default options. It depends on the text alone,
/// and a text without '@' never parses (no local part and domain to split).
#[verifier::external_body]
pub(crate) fn is_valid_address(s: &str) -> (r: bool)
    ensures
        r == valid_address(s@),
        !s@.contains('@') ==> !r,
{
    email_address::EmailAddress::is_valid(s)
}

/// Whether `to` is an address a message may be sent to.
pub fn is_valid_recipient(to: &String) -> (r: bool)
    ensures
        r == valid_address(to@),
        !to@.contains('@') ==> !r,
{
    is_valid_address(to.as_str())
}

/// The plain-text message that is handed to the backend for sending.
pub open spec fn message_text(
    login: Seq<char>,
    to: Seq<char>,
    subject: Seq<char>,
    text: Seq<char>,
) -> Seq<char> {
    "Content-Type: text/plain\nFrom: "@ + login + "\nTo: "@ + to + "\nSubject: "@ + subject
        + "\n\n"@ + text
}

/// Builds the header lines and the body of a plain-text message.
pub fn compose_message(login: &String, to: &String, subject: &String, text: &String) -> (r: String)
    ensures
        r@ == message_text(login@, to@, subject@, text@),
{
    let mut r = String::from_str("Content-Type: text/plain\nFrom: ");
    r.append(login.as_str());
    r.append("\nTo: ");
    r.append(to.as_str());
    r.append("\nSubject: ");
    r.append(subject.as_str());
    r.append("\n\n");
    r.append(text.as_str());
    r
}

} // verus!
