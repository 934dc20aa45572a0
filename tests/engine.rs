use mailtui::actions::{ActionKind, Actions};
use mailtui::message::{compose_message, is_valid_recipient};
use mailtui::pending::PendingSet;
use mailtui::state::{send_request, Envelope, Request, Response, Slot, State, PAGE_SIZE};

fn s(x: &str) -> String {
    x.to_string()
}

fn list_folders(login: &str) -> Actions {
    Actions::ListFolders { login: s(login) }
}

fn list_envelopes(login: &str, folder: &str, page: usize) -> Actions {
    Actions::ListEnvelopes { login: s(login), folder: s(folder), page }
}

fn get_message(login: &str, folder: &str, id: &str) -> Actions {
    Actions::GetMessage { login: s(login), folder: s(folder), id: s(id) }
}

fn send_message(login: &str, to: &str) -> Actions {
    Actions::SendMessage { login: s(login), to: s(to), subject: s("hi"), text: s("body") }
}

fn envelope(id: &str) -> Envelope {
    Envelope { id: s(id), flags: s(""), subject: s("subject"), from: s("bob@example.org"), date: s("today") }
}

fn state_with(logins: &[&str]) -> State {
    let mut st = State::new();
    for l in logins {
        st.add_account(s(l));
    }
    st
}

#[test]
fn kind_is_the_variant_tag() {
    assert_eq!(list_folders("a").kind(), ActionKind::ListFolders);
    assert_eq!(list_envelopes("a", "INBOX", 3).kind(), ActionKind::ListEnvelopes);
    assert_eq!(get_message("a", "INBOX", "7").kind(), ActionKind::GetMessage);
    assert_eq!(send_message("a", "b@c.d").kind(), ActionKind::SendMessage);
}

#[test]
fn intents_of_one_kind_are_equal_whatever_their_payload() {
    assert!(list_envelopes("alice", "INBOX", 0) == list_envelopes("bob", "Sent", 4));
    assert!(list_folders("alice") != get_message("alice", "INBOX", "1"));
}

#[test]
fn pending_set_keeps_one_intent_per_kind() {
    let mut p = PendingSet::new();
    assert!(p.is_empty());
    p.submit(list_folders("alice"));
    p.submit(list_envelopes("alice", "INBOX", 0));
    p.submit(list_folders("bob"));
    p.submit(get_message("alice", "INBOX", "1"));
    p.submit(list_envelopes("alice", "Sent", 2));
    p.submit(send_message("alice", "x@y.z"));
    p.submit(get_message("alice", "INBOX", "2"));
    let drained = p.drain_all();
    assert_eq!(drained.len(), 4);
    let mut kinds: Vec<ActionKind> = drained.iter().map(|a| a.kind()).collect();
    kinds.dedup();
    assert_eq!(kinds.len(), 4);
    assert!(p.is_empty());
    assert_eq!(p.drain_all().len(), 0);
}

#[test]
fn only_the_last_intent_of_a_kind_is_executed() {
    let mut p = PendingSet::new();
    p.submit(list_envelopes("alice", "INBOX", 0));
    p.submit(list_envelopes("alice", "INBOX", 1));
    p.submit(list_envelopes("alice", "Archive", 5));
    let drained = p.drain_all();
    assert_eq!(drained.len(), 1);
    match &drained[0] {
        Actions::ListEnvelopes { login, folder, page } => {
            assert_eq!(login, "alice");
            assert_eq!(folder, "Archive");
            assert_eq!(*page, 5);
        }
        other => panic!("unexpected {:?}", other),
    }
}

#[test]
fn repeated_list_folders_makes_one_backend_call() {
    let mut st = state_with(&["alice"]);
    st.submit(list_folders("alice"));
    st.submit(list_folders("alice"));
    let drained = st.begin_cycle();
    assert_eq!(drained.len(), 1);
    let mut calls = 0;
    for a in drained {
        if let Some(Request::ListFolders { login }) = st.begin_action(a) {
            assert_eq!(login, "alice");
            calls += 1;
        }
    }
    assert_eq!(calls, 1);
}

#[test]
fn add_account_lists_each_login_once() {
    let mut st = State::new();
    assert!(st.add_account(s("alice")));
    assert!(st.add_account(s("bob")));
    assert!(!st.add_account(s("alice")));
    let v = st.as_view_state(None);
    assert_eq!(v.accounts, vec![s("alice"), s("bob")]);
    assert!(v.folders.is_none());
    assert!(v.messages.is_none());
}

#[test]
fn busy_follows_pending_work_and_cycles() {
    let mut st = state_with(&["alice"]);
    assert!(!st.is_updating());
    st.submit(list_folders("alice"));
    assert!(st.is_updating());
    assert!(!st.pending_is_empty());
    let drained = st.begin_cycle();
    assert!(st.is_updating());
    assert!(st.pending_is_empty());
    // an intent that arrives during the cycle keeps the flag set past its end
    st.submit(list_envelopes("alice", "INBOX", 0));
    for a in drained {
        let _ = st.begin_action(a);
    }
    st.end_cycle();
    assert!(st.is_updating());
    let drained = st.begin_cycle();
    assert_eq!(drained.len(), 1);
    st.end_cycle();
    assert!(!st.is_updating());
}

#[test]
fn an_idle_cycle_clears_busy() {
    let mut st = state_with(&["alice"]);
    let drained = st.begin_cycle();
    assert!(drained.is_empty());
    assert!(st.is_updating());
    st.end_cycle();
    assert!(!st.is_updating());
}

#[test]
fn folder_listing_goes_loading_then_ready() {
    let mut st = state_with(&["alice"]);
    st.submit(list_folders("alice"));
    let a = st.begin_cycle().pop().unwrap();
    let req = st.begin_action(a).unwrap();
    assert!(matches!(st.as_view_state(Some(s("alice"))).folders, None));
    st.complete_action(&req, Response::Folders(vec![s("INBOX"), s("Sent")]));
    st.end_cycle();
    let v = st.as_view_state(Some(s("alice")));
    assert_eq!(v.folders, Some(vec![s("INBOX"), s("Sent")]));
    assert!(!st.is_updating());
}

#[test]
fn full_page_then_short_page() {
    let mut st = state_with(&["alice"]);
    st.submit(list_envelopes("alice", "INBOX", 0));
    let a = st.begin_cycle().pop().unwrap();
    let req = st.begin_action(a).unwrap();
    let page: Vec<Envelope> = (0..PAGE_SIZE).map(|i| envelope(&i.to_string())).collect();
    st.complete_action(&req, Response::Envelopes(page));
    let v = st.as_view_state(Some(s("alice")));
    assert_eq!(v.messages.as_ref().map(|m| m.len()), Some(10));
    assert_eq!(v.messages.unwrap()[3].id, "3");
}

#[test]
fn failed_fetch_leaves_message_loading() {
    let mut st = state_with(&["alice"]);
    st.submit(get_message("alice", "INBOX", "no-such-id"));
    let a = st.begin_cycle().pop().unwrap();
    let req = st.begin_action(a).unwrap();
    st.complete_action(&req, Response::Failed);
    st.end_cycle();
    assert!(matches!(st.open_message(), Slot::Loading));
    assert!(st.as_view_state(Some(s("alice"))).message.is_none());
}

#[test]
fn fetched_message_is_shown() {
    let mut st = state_with(&["alice"]);
    st.submit(get_message("alice", "INBOX", "1"));
    let a = st.begin_cycle().pop().unwrap();
    let req = st.begin_action(a).unwrap();
    st.complete_action(&req, Response::Message(s("Hello there")));
    assert_eq!(st.as_view_state(None).message, Some(s("Hello there")));
}

#[test]
fn failed_call_leaves_other_slots_alone() {
    let mut st = state_with(&["alice", "bob"]);
    st.submit(list_folders("bob"));
    let a = st.begin_cycle().pop().unwrap();
    let req = st.begin_action(a).unwrap();
    st.complete_action(&req, Response::Folders(vec![s("Bob's")]));
    st.end_cycle();
    st.submit(list_folders("alice"));
    let a = st.begin_cycle().pop().unwrap();
    let req = st.begin_action(a).unwrap();
    st.complete_action(&req, Response::Failed);
    st.end_cycle();
    assert!(st.as_view_state(Some(s("alice"))).folders.is_none());
    assert_eq!(st.as_view_state(Some(s("bob"))).folders, Some(vec![s("Bob's")]));
}

#[test]
fn answer_of_the_wrong_kind_is_ignored() {
    let mut st = state_with(&["alice"]);
    st.submit(list_folders("alice"));
    let a = st.begin_cycle().pop().unwrap();
    let req = st.begin_action(a).unwrap();
    st.complete_action(&req, Response::Envelopes(vec![envelope("1")]));
    let v = st.as_view_state(Some(s("alice")));
    assert!(v.folders.is_none());
    assert!(v.messages.is_none());
}

#[test]
fn unknown_account_makes_no_call() {
    let mut st = state_with(&["alice"]);
    assert!(st.begin_action(list_folders("mallory")).is_none());
    assert!(st.begin_action(list_envelopes("mallory", "INBOX", 0)).is_none());
    assert!(st.begin_action(get_message("mallory", "INBOX", "1")).is_none());
    assert!(st.begin_action(send_message("mallory", "bob@example.org")).is_none());
    assert!(st.as_view_state(Some(s("mallory"))).folders.is_none());
}

#[test]
fn invalid_recipient_is_rejected_before_any_call() {
    let mut st = state_with(&["alice@example.org"]);
    assert!(st.begin_action(send_message("alice@example.org", "not an address")).is_none());
}

#[test]
fn valid_send_carries_the_composed_message() {
    let mut st = state_with(&["alice@example.org"]);
    match st.begin_action(send_message("alice@example.org", "bob@example.org")) {
        Some(Request::SendMessage { login, message }) => {
            assert_eq!(login, "alice@example.org");
            assert_eq!(
                message,
                "Content-Type: text/plain\nFrom: alice@example.org\nTo: bob@example.org\nSubject: hi\n\nbody"
            );
        }
        other => panic!("unexpected {:?}", other),
    }
}

#[test]
fn compose_message_lays_out_headers_and_body() {
    let m = compose_message(&s("a@b.c"), &s("d@e.f"), &s("Re: x"), &s("line1\nline2"));
    assert_eq!(m, "Content-Type: text/plain\nFrom: a@b.c\nTo: d@e.f\nSubject: Re: x\n\nline1\nline2");
    let empty = compose_message(&s(""), &s(""), &s(""), &s(""));
    assert_eq!(empty, "Content-Type: text/plain\nFrom: \nTo: \nSubject: \n\n");
}

#[test]
fn recipient_validity() {
    assert!(is_valid_recipient(&s("bob@example.org")));
    assert!(!is_valid_recipient(&s("bob.example.org")));
    assert!(!is_valid_recipient(&s("")));
    assert!(!is_valid_recipient(&s("@example.org")));
}

#[test]
fn projection_without_account_shows_no_folders() {
    let mut st = state_with(&["alice"]);
    st.submit(list_folders("alice"));
    let a = st.begin_cycle().pop().unwrap();
    let req = st.begin_action(a).unwrap();
    st.complete_action(&req, Response::Folders(vec![s("INBOX")]));
    let v = st.as_view_state(None);
    assert_eq!(v.accounts, vec![s("alice")]);
    assert!(v.folders.is_none());
}

#[test]
fn send_request_follows_the_deliverability_verdict() {
    assert!(send_request(s("a@b.c"), s("nope"), s("s"), s("t"), false).is_none());
    match send_request(s("a@b.c"), s("d@e.f"), s("s"), s("t"), true) {
        Some(Request::SendMessage { login, message }) => {
            assert_eq!(login, "a@b.c");
            assert_eq!(message, "Content-Type: text/plain\nFrom: a@b.c\nTo: d@e.f\nSubject: s\n\nt");
        }
        other => panic!("unexpected {:?}", other),
    }
}
