use vstd::prelude::*;

use crate::actions::{ActionKind, Actions};
use crate::message::{compose_message, is_valid_recipient, message_text, valid_address};
use crate::pending::{in_kind_order, keyed_by_kind, PendingSet};

verus! {

/// Number of message headers asked for per page; a shorter page is the last.
pub const PAGE_SIZE: usize = 10;

/// A cache slot: nothing asked yet, a request in flight, or a result.
#[derive(Debug)]
pub enum Slot<T> {
    Absent,
    Loading,
    Ready(T),
}

impl<T: View> View for Slot<T> {
    type V = Slot<T::V>;

    open spec fn view(&self) -> Slot<T::V> {
        match self {
            Slot::Absent => Slot::Absent,
            Slot::Loading => Slot::Loading,
            Slot::Ready(v) => Slot::Ready(v@),
        }
    }
}

pub open spec fn ready<T>(s: Slot<T>) -> Option<T> {
    match s {
        Slot::Ready(v) => Some(v),
        _ => None,
    }
}

/// A message header as the message table shows it.
#[derive(Debug)]
pub struct Envelope {
    pub id: String,
    pub flags: String,
    pub subject: String,
    pub from: String,
    pub date: String,
}

impl Envelope {
    pub fn copy(&self) -> (r: Envelope)
        ensures
            r == *self,
    {
        Envelope {
            id: self.id.clone(),
            flags: self.flags.clone(),
            subject: self.subject.clone(),
            from: self.from.clone(),
            date: self.date.clone(),
        }
    }
}

pub fn copy_strings(v: &Vec<String>) -> (r: Vec<String>)
    ensures
        r@ == v@,
{
    let mut r: Vec<String> = Vec::new();
    let mut i: usize = 0;
    while i < v.len()
        invariant
            i <= v.len(),
            r@ == v@.subrange(0, i as int),
        decreases v.len() - i,
    {
        r.push(v[i].clone());
        i = i + 1;
    }
    assert(r@ =~= v@);
    r
}

pub fn copy_envelopes(v: &Vec<Envelope>) -> (r: Vec<Envelope>)
    ensures
        r@ == v@,
{
    let mut r: Vec<Envelope> = Vec::new();
    let mut i: usize = 0;
    while i < v.len()
        invariant
            i <= v.len(),
            r@ == v@.subrange(0, i as int),
        decreases v.len() - i,
    {
        r.push(v[i].copy());
        i = i + 1;
    }
    assert(r@ =~= v@);
    r
}

/// A snapshot of the cache for one selected account, as the screen draws it.
#[derive(Debug)]
pub struct ViewState {
    pub accounts: Vec<String>,
    pub folders: Option<Vec<String>>,
    pub messages: Option<Vec<Envelope>>,
    pub message: Option<String>,
}

pub struct ViewModel {
    pub accounts: Seq<String>,
    pub folders: Option<Seq<String>>,
    pub messages: Option<Seq<Envelope>>,
    pub message: Option<Seq<char>>,
}

impl View for ViewState {
    type V = ViewModel;

    open spec fn view(&self) -> ViewModel {
        ViewModel {
            accounts: self.accounts@,
            folders: match self.folders {
                Some(v) => Some(v@),
                None => None,
            },
            messages: match self.messages {
                Some(v) => Some(v@),
                None => None,
            },
            message: match self.message {
                Some(m) => Some(m@),
                None => None,
            },
        }
    }
}

impl Default for ViewState {
    fn default() -> (r: ViewState)
        ensures
            r@ == (ViewModel { accounts: Seq::empty(), folders: None, messages: None, message: None }),
    {
        let r = ViewState { accounts: Vec::new(), folders: None, messages: None, message: None };
        assert(r@.accounts =~= Seq::<String>::empty());
        r
    }
}

/// The shared cache, the pending intents and the busy flag, as one value.
pub struct StateModel {
    pub accounts: Seq<String>,
    pub folders: Map<Seq<char>, Slot<Seq<String>>>,
    pub envelopes: Map<Seq<char>, Slot<Seq<Envelope>>>,
    pub message: Slot<Seq<char>>,
    pub busy: bool,
    pub pending: Map<ActionKind, Actions>,
    pub cycle_running: bool,
}

impl StateModel {
    pub open spec fn has_account(self, login: Seq<char>) -> bool {
        exists|i: int| 0 <= i < self.accounts.len() && #[trigger] self.accounts[i]@ == login
    }

    /// Background work is outstanding whenever an intent is pending or a cycle
    /// runs, and the busy flag says so.
    pub open spec fn busy_covers_work(self) -> bool {
        (self.pending != Map::<ActionKind, Actions>::empty() || self.cycle_running) ==> self.busy
    }

    pub open spec fn folders_of(self, login: Seq<char>) -> Slot<Seq<String>> {
        if self.folders.contains_key(login) {
            self.folders[login]
        } else {
            Slot::Absent
        }
    }

    pub open spec fn envelopes_of(self, login: Seq<char>) -> Slot<Seq<Envelope>> {
        if self.envelopes.contains_key(login) {
            self.envelopes[login]
        } else {
            Slot::Absent
        }
    }

    /// The snapshot for the selected account, read from this one state.
    pub open spec fn project(self, login: Option<Seq<char>>) -> ViewModel {
        ViewModel {
            accounts: self.accounts,
            folders: match login {
                Some(l) => ready(self.folders_of(l)),
                None => None,
            },
            messages: match login {
                Some(l) => ready(self.envelopes_of(l)),
                None => None,
            },
            message: ready(self.message),
        }
    }

    /// The cache after the in-flight mark that precedes the call for `a`.
    pub open spec fn marked(self, a: Actions) -> StateModel {
        match a {
            Actions::ListFolders { login } => if self.has_account(login@) {
                StateModel { folders: self.folders.insert(login@, Slot::Loading), ..self }
            } else {
                self
            },
            Actions::ListEnvelopes { login, .. } => if self.has_account(login@) {
                StateModel { envelopes: self.envelopes.insert(login@, Slot::Loading), ..self }
            } else {
                self
            },
            Actions::GetMessage { .. } => StateModel { message: Slot::Loading, ..self },
            Actions::SendMessage { .. } => self,
        }
    }

    /// Whether `r` is the backend call to make for `a`: none for an unknown
    /// account or an invalid recipient, and otherwise the action's own data.
    pub open spec fn issues(self, a: Actions, r: Option<Request>) -> bool {
        match a {
            Actions::ListFolders { login } => r == if self.has_account(login@) {
                Some(Request::ListFolders { login })
            } else {
                None
            },
            Actions::ListEnvelopes { login, folder, page } => r == if self.has_account(login@) {
                Some(Request::ListEnvelopes { login, folder, page })
            } else {
                None
            },
            Actions::GetMessage { login, folder, id } => r == if self.has_account(login@) {
                Some(Request::GetMessage { login, folder, id })
            } else {
                None
            },
            Actions::SendMessage { login, to, subject, text } => if self.has_account(login@)
                && valid_address(to@) {
                r matches Some(Request::SendMessage { login: l, message: m }) && l == login && m@
                    == message_text(login@, to@, subject@, text@)
            } else {
                r is None
            },
        }
    }

    /// The cache after the backend answered `resp` to `req`: a result of the
    /// kind asked for fills the slot of the account asked for; anything else,
    /// a failure first of all, changes nothing.
    pub open spec fn completed(self, req: Request, resp: Response) -> StateModel {
        match req {
            Request::ListFolders { login } => match resp {
                Response::Folders(v) => if self.has_account(login@) {
                    StateModel { folders: self.folders.insert(login@, Slot::Ready(v@)), ..self }
                } else {
                    self
                },
                _ => self,
            },
            Request::ListEnvelopes { login, .. } => match resp {
                Response::Envelopes(v) => if self.has_account(login@) {
                    StateModel { envelopes: self.envelopes.insert(login@, Slot::Ready(v@)), ..self }
                } else {
                    self
                },
                _ => self,
            },
            Request::GetMessage { .. } => match resp {
                Response::Message(body) => StateModel { message: Slot::Ready(body@), ..self },
                _ => self,
            },
            Request::SendMessage { .. } => self,
        }
    }
}

pub open spec fn login_key(login: Option<String>) -> Option<Seq<char>> {
    match login {
        Some(l) => Some(l@),
        None => None,
    }
}

/// A backend call to make, with what it needs.
#[derive(Debug)]
pub enum Request {
    ListFolders { login: String },
    ListEnvelopes { login: String, folder: String, page: usize },
    GetMessage { login: String, folder: String, id: String },
    SendMessage { login: String, message: String },
}

impl Request {
    pub open spec fn login_spec(&self) -> Seq<char> {
        match self {
            Request::ListFolders { login } => login@,
            Request::ListEnvelopes { login, .. } => login@,
            Request::GetMessage { login, .. } => login@,
            Request::SendMessage { login, .. } => login@,
        }
    }
}

/// What a backend call returned.
#[derive(Debug)]
pub enum Response {
    Folders(Vec<String>),
    Envelopes(Vec<Envelope>),
    Message(String),
    Sent,
    Failed,
}

/// The call that sends a message, when `deliverable` says the sender is a
/// known account and the recipient a valid address; none otherwise.
pub fn send_request(login: String, to: String, subject: String, text: String, deliverable: bool) -> (r:
    Option<Request>)
    ensures
        deliverable ==> (r matches Some(Request::SendMessage { login: l, message: m }) && l == login
            && m@ == message_text(login@, to@, subject@, text@)),
        !deliverable ==> r is None,
{
    if deliverable {
        let message = compose_message(&login, &to, &subject, &text);
        Some(Request::SendMessage { login, message })
    } else {
        None
    }
}

/// The process-wide state: one cache entry per account, the open message,
/// the intents awaiting execution, and whether background work is outstanding.
pub struct State {
    logins: Vec<String>,
    folders: Vec<Slot<Vec<String>>>,
    envelopes: Vec<Slot<Vec<Envelope>>>,
    message: Slot<String>,
    busy: bool,
    pending: PendingSet,
    cycle_running: bool,
}

impl View for State {
    type V = StateModel;

    closed spec fn view(&self) -> StateModel {
        StateModel {
            accounts: self.logins@,
            folders: Map::new(
                |l: Seq<char>| self.listed(l),
                |l: Seq<char>| self.folders@[self.index_of(l)]@,
            ),
            envelopes: Map::new(
                |l: Seq<char>| self.listed(l),
                |l: Seq<char>| self.envelopes@[self.index_of(l)]@,
            ),
            message: self.message@,
            busy: self.busy,
            pending: self.pending@,
            cycle_running: self.cycle_running,
        }
    }
}

impl State {
    closed spec fn listed(&self, login: Seq<char>) -> bool {
        exists|i: int| 0 <= i < self.logins@.len() && #[trigger] self.logins@[i]@ == login
    }

    closed spec fn index_of(&self, login: Seq<char>) -> int {
        choose|i: int| 0 <= i < self.logins@.len() && #[trigger] self.logins@[i]@ == login
    }

    /// Each listed login has one folder slot and one header slot, no login is
    /// listed twice, pending intents sit under their own kind, and the busy
    /// flag covers outstanding work. `new` establishes it and every method
    /// keeps it, so it holds of every `State` there is.
    pub closed spec fn wf(&self) -> bool {
        &&& self.folders@.len() == self.logins@.len()
        &&& self.envelopes@.len() == self.logins@.len()
        &&& forall|i: int, j: int|
            0 <= i < j < self.logins@.len() ==> #[trigger] self.logins@[i]@
                != #[trigger] self.logins@[j]@
        &&& keyed_by_kind(self.pending@)
        &&& self@.busy_covers_work()
    }

    proof fn lemma_index_of(&self, i: int)
        requires
            self.wf(),
            0 <= i < self.logins@.len(),
        ensures
            self.index_of(self.logins@[i]@) == i,
            self@.has_account(self.logins@[i]@),
    {
        let l = self.logins@[i]@;
        assert(self@.accounts[i]@ == l);
        let j = self.index_of(l);
        if j != i {
            if j < i {
                assert(self.logins@[j]@ != self.logins@[i]@);
            } else {
                assert(self.logins@[i]@ != self.logins@[j]@);
            }
        }
    }

    pub fn new() -> (r: State)
        ensures
            r.wf(),
            r@.accounts == Seq::<String>::empty(),
            r@.folders == Map::<Seq<char>, Slot<Seq<String>>>::empty(),
            r@.envelopes == Map::<Seq<char>, Slot<Seq<Envelope>>>::empty(),
            r@.message == Slot::<Seq<char>>::Absent,
            !r@.busy,
            r@.pending == Map::<ActionKind, Actions>::empty(),
            !r@.cycle_running,
    {
        let r = State {
            logins: Vec::new(),
            folders: Vec::new(),
            envelopes: Vec::new(),
            message: Slot::Absent,
            busy: false,
            pending: PendingSet::new(),
            cycle_running: false,
        };
        assert(r@.folders =~= Map::<Seq<char>, Slot<Seq<String>>>::empty());
        assert(r@.envelopes =~= Map::<Seq<char>, Slot<Seq<Envelope>>>::empty());
        r
    }

    fn find_account(&self, login: &String) -> (r: Option<usize>)
        requires
            self.wf(),
        ensures
            r is Some <==> self@.has_account(login@),
            r matches Some(i) ==> i < self.logins@.len() && self.logins@[i as int]@ == login@
                && self.index_of(login@) == i,
    {
        let mut i: usize = 0;
        while i < self.logins.len()
            invariant
                self.wf(),
                i <= self.logins@.len(),
                forall|j: int| 0 <= j < i ==> #[trigger] self.logins@[j]@ != login@,
            decreases self.logins.len() - i,
        {
            if self.logins[i] == *login {
                proof {
                    self.lemma_index_of(i as int);
                }
                return Some(i);
            }
            i = i + 1;
        }
        None
    }

    /// Lists an account at startup; a login that is listed already is not
    /// listed twice.
    pub fn add_account(&mut self, login: String) -> (added: bool)
        requires
            old(self).wf(),
        ensures
            final(self).wf(),
            added == !old(self)@.has_account(login@),
            final(self)@ == if added {
                StateModel {
                    accounts: old(self)@.accounts.push(login),
                    folders: old(self)@.folders.insert(login@, Slot::Absent),
                    envelopes: old(self)@.envelopes.insert(login@, Slot::Absent),
                    ..old(self)@
                }
            } else {
                old(self)@
            },
    {
        if self.find_account(&login).is_some() {
            return false;
        }
        let ghost before = *self;
        let ghost l = login@;
        let ghost l_s = login;
        self.logins.push(login);
        self.folders.push(Slot::Absent);
        self.envelopes.push(Slot::Absent);
        proof {
            let n = before.logins@.len() as int;
            assert forall|i: int, j: int|
                0 <= i < j < self.logins@.len() implies #[trigger] self.logins@[i]@
                != #[trigger] self.logins@[j]@ by {
                if j == n {
                    assert(self.logins@[i] == before.logins@[i]);
                } else {
                    assert(self.logins@[i] == before.logins@[i]);
                    assert(self.logins@[j] == before.logins@[j]);
                }
            }
            assert(self.pending@ == before.pending@);
            assert(self@.accounts == before@.accounts.push(l_s));
            assert forall|k: Seq<char>| #[trigger]
                self@.has_account(k) <==> (before@.has_account(k) || k == l) by {
                if before@.has_account(k) {
                    let i = choose|i: int|
                        0 <= i < before@.accounts.len() && #[trigger] before@.accounts[i]@ == k;
                    assert(self@.accounts[i] == before@.accounts[i]);
                    assert(self@.accounts[i]@ == k);
                }
                if k == l {
                    assert(self@.accounts[n]@ == l);
                }
                if self@.has_account(k) {
                    let i = choose|i: int|
                        0 <= i < self@.accounts.len() && #[trigger] self@.accounts[i]@ == k;
                    if i < n {
                        assert(self@.accounts[i] == before@.accounts[i]);
                        assert(before@.accounts[i]@ == k);
                    }
                }
            }
            assert forall|k: Seq<char>| #[trigger] self@.has_account(k) implies self.index_of(k) == (
            if k == l {
                n
            } else {
                before.index_of(k)
            }) by {
                if k == l {
                    self.lemma_index_of(n);
                } else {
                    let i = before.index_of(k);
                    before.lemma_index_of(i);
                    assert(self.logins@[i] == before.logins@[i]);
                    self.lemma_index_of(i);
                }
            }
            assert forall|k: Seq<char>| #[trigger] self.listed(k) == (before.listed(k) || k == l) by {
                assert(self.listed(k) == self@.has_account(k));
                assert(before.listed(k) == before@.has_account(k));
            }
            assert(self.folders@ == before.folders@.push(Slot::Absent));
            assert(self.envelopes@ == before.envelopes@.push(Slot::Absent));
            assert forall|k: Seq<char>| #[trigger] self@.folders.contains_key(k) implies self@.folders[k]
                == before@.folders.insert(l, Slot::Absent)[k] && self@.envelopes[k]
                == before@.envelopes.insert(l, Slot::Absent)[k] by {
                if k != l {
                    let i = before.index_of(k);
                    before.lemma_index_of(i);
                    assert(self.folders@[i] == before.folders@[i]);
                    assert(self.envelopes@[i] == before.envelopes@[i]);
                }
            }
            assert(self@.folders =~= before@.folders.insert(l, Slot::Absent));
            assert(self@.envelopes =~= before@.envelopes.insert(l, Slot::Absent));
        }
        true
    }

    /// Whether background work is outstanding.
    pub fn is_updating(&self) -> (r: bool)
        ensures
            r == self@.busy,
    {
        self.busy
    }

    /// The open message's cache slot.
    pub fn open_message(&self) -> (r: &Slot<String>)
        ensures
            r@ == self@.message,
    {
        &self.message
    }

    pub fn pending_is_empty(&self) -> (r: bool)
        ensures
            r == (self@.pending == Map::<ActionKind, Actions>::empty()),
    {
        self.pending.is_empty()
    }

    /// Records that an intent is on its way, before it reaches the pending
    /// set, so that readers hold on to their last snapshot meanwhile.
    pub fn mark_updating(&mut self)
        requires
            old(self).wf(),
        ensures
            final(self).wf(),
            final(self)@ == (StateModel { busy: true, ..old(self)@ }),
    {
        let ghost before = *self;
        self.busy = true;
        proof {
            assert(self@.folders =~= before@.folders);
            assert(self@.envelopes =~= before@.envelopes);
        }
    }

    /// Queues an intent; one already pending of the same kind is dropped.
    pub fn submit(&mut self, action: Actions)
        requires
            old(self).wf(),
        ensures
            final(self).wf(),
            final(self)@ == (StateModel {
                pending: old(self)@.pending.insert(action.kind(), action),
                busy: true,
                ..old(self)@
            }),
    {
        let ghost before = *self;
        self.pending.submit(action);
        self.busy = true;
        proof {
            assert(self@.folders =~= before@.folders);
            assert(self@.envelopes =~= before@.envelopes);
        }
    }

    /// Starts an executor cycle: takes every pending intent.
    pub fn begin_cycle(&mut self) -> (r: Vec<Actions>)
        requires
            old(self).wf(),
        ensures
            final(self).wf(),
            final(self)@ == (StateModel {
                pending: Map::<ActionKind, Actions>::empty(),
                busy: true,
                cycle_running: true,
                ..old(self)@
            }),
            r@ == in_kind_order(old(self)@.pending),
            forall|i: int|
                0 <= i < r@.len() ==> old(self)@.pending.contains_key(#[trigger] r@[i].kind())
                    && old(self)@.pending[r@[i].kind()] == r@[i],
            forall|k: ActionKind| #[trigger]
                old(self)@.pending.contains_key(k) ==> r@.contains(old(self)@.pending[k]),
            forall|i: int, j: int|
                0 <= i < j < r@.len() ==> #[trigger] r@[i].kind() != #[trigger] r@[j].kind(),
    {
        let ghost before = *self;
        let r = self.pending.drain_all();
        self.busy = true;
        self.cycle_running = true;
        proof {
            assert(self@.folders =~= before@.folders);
            assert(self@.envelopes =~= before@.envelopes);
        }
        r
    }

    /// Ends an executor cycle: the busy flag is cleared only when nothing
    /// arrived meanwhile.
    pub fn end_cycle(&mut self)
        requires
            old(self).wf(),
        ensures
            final(self).wf(),
            final(self)@ == (StateModel {
                busy: old(self)@.pending != Map::<ActionKind, Actions>::empty(),
                cycle_running: false,
                ..old(self)@
            }),
    {
        let ghost before = *self;
        self.cycle_running = false;
        self.busy = !self.pending.is_empty();
        proof {
            assert(self@.folders =~= before@.folders);
            assert(self@.envelopes =~= before@.envelopes);
        }
    }

    fn set_folder_slot(&mut self, i: usize, slot: Slot<Vec<String>>)
        requires
            old(self).wf(),
            i < old(self).logins@.len(),
        ensures
            final(self).wf(),
            final(self)@ == (StateModel {
                folders: old(self)@.folders.insert(old(self).logins@[i as int]@, slot@),
                ..old(self)@
            }),
    {
        let ghost before = *self;
        let ghost v = slot@;
        self.folders.set(i, slot);
        proof {
            let l = before.logins@[i as int]@;
            before.lemma_index_of(i as int);
            assert forall|k: Seq<char>| #[trigger] self@.folders.contains_key(k) implies self@.folders[k]
                == before@.folders.insert(l, v)[k] by {
                if k != l {
                    let j = before.index_of(k);
                    before.lemma_index_of(j);
                }
            }
            assert(self@.folders =~= before@.folders.insert(l, v));
            assert(self@.envelopes =~= before@.envelopes);
        }
    }

    fn set_envelope_slot(&mut self, i: usize, slot: Slot<Vec<Envelope>>)
        requires
            old(self).wf(),
            i < old(self).logins@.len(),
        ensures
            final(self).wf(),
            final(self)@ == (StateModel {
                envelopes: old(self)@.envelopes.insert(old(self).logins@[i as int]@, slot@),
                ..old(self)@
            }),
    {
        let ghost before = *self;
        let ghost v = slot@;
        self.envelopes.set(i, slot);
        proof {
            let l = before.logins@[i as int]@;
            before.lemma_index_of(i as int);
            assert forall|k: Seq<char>| #[trigger] self@.envelopes.contains_key(k) implies self@.envelopes[k]
                == before@.envelopes.insert(l, v)[k] by {
                if k != l {
                    let j = before.index_of(k);
                    before.lemma_index_of(j);
                }
            }
            assert(self@.envelopes =~= before@.envelopes.insert(l, v));
            assert(self@.folders =~= before@.folders);
        }
    }

    /// Prepares the execution of a drained intent: marks its cache slot as in
    /// flight and returns the backend call to make, if any.
    pub fn begin_action(&mut self, action: Actions) -> (r: Option<Request>)
        requires
            old(self).wf(),
        ensures
            final(self).wf(),
            final(self)@ == old(self)@.marked(action),
            old(self)@.issues(action, r),
    {
        match action {
            Actions::ListFolders { login } => match self.find_account(&login) {
                Some(i) => {
                    self.set_folder_slot(i, Slot::Loading);
                    Some(Request::ListFolders { login })
                },
                None => None,
            },
            Actions::ListEnvelopes { login, folder, page } => match self.find_account(&login) {
                Some(i) => {
                    self.set_envelope_slot(i, Slot::Loading);
                    Some(Request::ListEnvelopes { login, folder, page })
                },
                None => None,
            },
            Actions::GetMessage { login, folder, id } => {
                let known = self.find_account(&login).is_some();
                let ghost before = *self;
                self.message = Slot::Loading;
                proof {
                    assert(self@.folders =~= before@.folders);
                    assert(self@.envelopes =~= before@.envelopes);
                }
                if known {
                    Some(Request::GetMessage { login, folder, id })
                } else {
                    None
                }
            },
            Actions::SendMessage { login, to, subject, text } => {
                let deliverable = self.find_account(&login).is_some() && is_valid_recipient(&to);
                send_request(login, to, subject, text, deliverable)
            },
        }
    }

    /// Writes what the backend answered to `request` into the cache.
    pub fn complete_action(&mut self, request: &Request, response: Response)
        requires
            old(self).wf(),
        ensures
            final(self).wf(),
            final(self)@ == old(self)@.completed(*request, response),
    {
        match request {
            Request::ListFolders { login } => {
                if let Response::Folders(v) = response {
                    if let Some(i) = self.find_account(login) {
                        self.set_folder_slot(i, Slot::Ready(v));
                    }
                }
            },
            Request::ListEnvelopes { login, .. } => {
                if let Response::Envelopes(v) = response {
                    if let Some(i) = self.find_account(login) {
                        self.set_envelope_slot(i, Slot::Ready(v));
                    }
                }
            },
            Request::GetMessage { .. } => {
                if let Response::Message(body) = response {
                    let ghost before = *self;
                    self.message = Slot::Ready(body);
                    proof {
                        assert(self@.folders =~= before@.folders);
                        assert(self@.envelopes =~= before@.envelopes);
                    }
                }
            },
            Request::SendMessage { .. } => {},
        }
    }

    /// Copies what the screen shows for the selected account out of this one
    /// state.
    pub fn as_view_state(&self, login: Option<String>) -> (r: ViewState)
        requires
            self.wf(),
        ensures
            r@ == self@.project(login_key(login)),
    {
        let accounts = copy_strings(&self.logins);
        let message = match &self.message {
            Slot::Ready(m) => Some(m.clone()),
            _ => None,
        };
        let (folders, messages) = match login {
            Some(l) => match self.find_account(&l) {
                Some(i) => {
                    let folders = match &self.folders[i] {
                        Slot::Ready(v) => Some(copy_strings(v)),
                        _ => None,
                    };
                    let messages = match &self.envelopes[i] {
                        Slot::Ready(v) => Some(copy_envelopes(v)),
                        _ => None,
                    };
                    (folders, messages)
                },
                None => (None, None),
            },
            None => (None, None),
        };
        ViewState { accounts, folders, messages, message }
    }
}

/// In every reachable state, the busy flag is set while an intent is pending
/// or an executor cycle runs.
pub proof fn lemma_busy_while_work_outstanding(s: &State)
    requires
        s.wf(),
    ensures
        s@.busy_covers_work(),
{
}

/// Marking a slot in flight and writing a backend answer leave the busy flag,
/// the pending intents and the cycle alone: of the state's operations only the
/// end of a cycle clears the flag, and only when nothing is pending then.
pub proof fn lemma_busy_kept_by_execution(m: StateModel, a: Actions, req: Request, resp: Response)
    ensures
        m.marked(a).busy == m.busy,
        m.marked(a).pending == m.pending,
        m.marked(a).cycle_running == m.cycle_running,
        m.completed(req, resp).busy == m.busy,
        m.completed(req, resp).pending == m.pending,
        m.completed(req, resp).cycle_running == m.cycle_running,
{
}

/// A failed backend call changes nothing in the cache: the slot it was for
/// stays as it was marked, and no other slot gets data.
pub proof fn lemma_failed_call_populates_nothing(m: StateModel, req: Request)
    ensures
        m.completed(req, Response::Failed) == m,
{
}

/// A backend answer only ever lands in the slot of the account it was asked
/// for: every other account's folders and message headers stay as they were.
pub proof fn lemma_answer_stays_with_its_account(
    m: StateModel,
    req: Request,
    resp: Response,
    other: Seq<char>,
)
    requires
        other != req.login_spec(),
    ensures
        m.completed(req, resp).folders_of(other) == m.folders_of(other),
        m.completed(req, resp).envelopes_of(other) == m.envelopes_of(other),
        m.completed(req, resp).accounts == m.accounts,
{
}

} // verus!
