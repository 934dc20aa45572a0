use vstd::prelude::*;

verus! {

/// The tag of an intent. Coalescing goes by this tag alone: two intents with
/// the same tag are the same kind, whatever their payload.
#[derive(Clone, Copy, Debug, PartialEq, Eq, Hash, Structural)]
pub enum ActionKind {
    ListFolders,
    ListEnvelopes,
    GetMessage,
    SendMessage,
}

/// One requested backend operation.
#[derive(Debug)]
pub enum Actions {
    ListFolders { login: String },
    ListEnvelopes { login: String, folder: String, page: usize },
    GetMessage { login: String, folder: String, id: String },
    SendMessage { login: String, to: String, subject: String, text: String },
}

impl Actions {
    pub open spec fn kind_spec(&self) -> ActionKind {
        match self {
            Actions::ListFolders { .. } => ActionKind::ListFolders,
            Actions::ListEnvelopes { .. } => ActionKind::ListEnvelopes,
            Actions::GetMessage { .. } => ActionKind::GetMessage,
            Actions::SendMessage { .. } => ActionKind::SendMessage,
        }
    }

    /// The kind under which this intent is coalesced.
    #[verifier::when_used_as_spec(kind_spec)]
    pub fn kind(&self) -> (r: ActionKind)
        ensures
            r == self.kind_spec(),
    {
        match self {
            Actions::ListFolders { .. } => ActionKind::ListFolders,
            Actions::ListEnvelopes { .. } => ActionKind::ListEnvelopes,
            Actions::GetMessage { .. } => ActionKind::GetMessage,
            Actions::SendMessage { .. } => ActionKind::SendMessage,
        }
    }

    pub open spec fn login_spec(&self) -> Seq<char> {
        match self {
            Actions::ListFolders { login } => login@,
            Actions::ListEnvelopes { login, .. } => login@,
            Actions::GetMessage { login, .. } => login@,
            Actions::SendMessage { login, .. } => login@,
        }
    }

    /// The account the intent acts for.
    pub fn login(&self) -> (r: &String)
        ensures
            r@ == self.login_spec(),
    {
        match self {
            Actions::ListFolders { login } => login,
            Actions::ListEnvelopes { login, .. } => login,
            Actions::GetMessage { login, .. } => login,
            Actions::SendMessage { login, .. } => login,
        }
    }
}

/// Two intents are equal when they are of the same kind: a newer intent
/// replaces an older equal one.
impl PartialEq for Actions {
    fn eq(&self, other: &Actions) -> (r: bool)
        ensures
            r == (self.kind() == other.kind()),
    {
        self.kind() == other.kind()
    }
}

impl vstd::std_specs::cmp::PartialEqSpecImpl for Actions {
    open spec fn obeys_eq_spec() -> bool {
        true
    }

    open spec fn eq_spec(&self, other: &Actions) -> bool {
        self.kind() == other.kind()
    }
}

impl Eq for Actions {
}

} // verus!
