use vstd::prelude::*;

use crate::actions::{ActionKind, Actions};

verus! {

/// Every entry of the map is stored under its own kind.
pub open spec fn keyed_by_kind(m: Map<ActionKind, Actions>) -> bool {
    forall|k: ActionKind| #[trigger] m.contains_key(k) ==> m[k].kind() == k
}

/// What the pending set holds after each intent of `s` is submitted in turn,
/// starting from `m`.
pub open spec fn after_submits(m: Map<ActionKind, Actions>, s: Seq<Actions>) -> Map<
    ActionKind,
    Actions,
>
    decreases s.len(),
{
    if s.len() == 0 {
        m
    } else {
        after_submits(m, s.drop_last()).insert(s.last().kind(), s.last())
    }
}

/// The entry of kind `k`, as a sequence of zero or one intents.
pub open spec fn entry_of(m: Map<ActionKind, Actions>, k: ActionKind) -> Seq<Actions> {
    if m.contains_key(k) {
        seq![m[k]]
    } else {
        Seq::empty()
    }
}

/// The pending intents listed in the order of their kinds.
pub open spec fn in_kind_order(m: Map<ActionKind, Actions>) -> Seq<Actions> {
    entry_of(m, ActionKind::ListFolders) + entry_of(m, ActionKind::ListEnvelopes) + entry_of(
        m,
        ActionKind::GetMessage,
    ) + entry_of(m, ActionKind::SendMessage)
}

/// The intents awaiting execution, at most one of each kind.
pub struct PendingSet {
    list_folders: Option<Actions>,
    list_envelopes: Option<Actions>,
    get_message: Option<Actions>,
    send_message: Option<Actions>,
}

impl PendingSet {
    closed spec fn slot(&self, k: ActionKind) -> Option<Actions> {
        match k {
            ActionKind::ListFolders => self.list_folders,
            ActionKind::ListEnvelopes => self.list_envelopes,
            ActionKind::GetMessage => self.get_message,
            ActionKind::SendMessage => self.send_message,
        }
    }

    pub fn new() -> (r: PendingSet)
        ensures
            r@ == Map::<ActionKind, Actions>::empty(),
            keyed_by_kind(r@),
    {
        let r = PendingSet {
            list_folders: None,
            list_envelopes: None,
            get_message: None,
            send_message: None,
        };
        assert(r@ =~= Map::<ActionKind, Actions>::empty());
        r
    }

    /// Adds an intent, replacing the pending one of the same kind if any.
    pub fn submit(&mut self, action: Actions)
        requires
            keyed_by_kind(old(self)@),
        ensures
            final(self)@ == old(self)@.insert(action.kind(), action),
            keyed_by_kind(final(self)@),
    {
        let ghost a = action;
        match action.kind() {
            ActionKind::ListFolders => self.list_folders = Some(action),
            ActionKind::ListEnvelopes => self.list_envelopes = Some(action),
            ActionKind::GetMessage => self.get_message = Some(action),
            ActionKind::SendMessage => self.send_message = Some(action),
        }
        assert(self@ =~= old(self)@.insert(a.kind(), a));
    }

    pub fn is_empty(&self) -> (r: bool)
        ensures
            r == (self@ == Map::<ActionKind, Actions>::empty()),
    {
        let r = self.list_folders.is_none() && self.list_envelopes.is_none()
            && self.get_message.is_none() && self.send_message.is_none();
        if r {
            assert(self@ =~= Map::<ActionKind, Actions>::empty());
        } else {
            if self.list_folders.is_some() {
                assert(self@.contains_key(ActionKind::ListFolders));
            } else if self.list_envelopes.is_some() {
                assert(self@.contains_key(ActionKind::ListEnvelopes));
            } else if self.get_message.is_some() {
                assert(self@.contains_key(ActionKind::GetMessage));
            } else {
                assert(self@.contains_key(ActionKind::SendMessage));
            }
        }
        r
    }

    /// Removes and returns every pending intent.
    pub fn drain_all(&mut self) -> (r: Vec<Actions>)
        requires
            keyed_by_kind(old(self)@),
        ensures
            final(self)@ == Map::<ActionKind, Actions>::empty(),
            keyed_by_kind(final(self)@),
            r@ == in_kind_order(old(self)@),
            forall|i: int|
                0 <= i < r@.len() ==> old(self)@.contains_key(#[trigger] r@[i].kind())
                    && old(self)@[r@[i].kind()] == r@[i],
            forall|k: ActionKind| #[trigger]
                old(self)@.contains_key(k) ==> r@.contains(old(self)@[k]),
            forall|i: int, j: int|
                0 <= i < j < r@.len() ==> #[trigger] r@[i].kind() != #[trigger] r@[j].kind(),
    {
        let ghost before = *self;
        proof {
            assert(before@.contains_key(ActionKind::ListFolders) ==> before.list_folders->0.kind()
                == ActionKind::ListFolders);
            assert(before@.contains_key(ActionKind::ListEnvelopes)
                ==> before.list_envelopes->0.kind() == ActionKind::ListEnvelopes);
            assert(before@.contains_key(ActionKind::GetMessage) ==> before.get_message->0.kind()
                == ActionKind::GetMessage);
            assert(before@.contains_key(ActionKind::SendMessage) ==> before.send_message->0.kind()
                == ActionKind::SendMessage);
        }
        let mut r: Vec<Actions> = Vec::new();
        if let Some(a) = self.list_folders.take() {
            r.push(a);
        }
        let ghost r1 = r@;
        if let Some(a) = self.list_envelopes.take() {
            r.push(a);
        }
        let ghost r2 = r@;
        if let Some(a) = self.get_message.take() {
            r.push(a);
        }
        let ghost r3 = r@;
        if let Some(a) = self.send_message.take() {
            r.push(a);
        }
        proof {
            let m = before@;
            assert(r1 =~= entry_of(m, ActionKind::ListFolders));
            assert(r2 =~= r1 + entry_of(m, ActionKind::ListEnvelopes));
            assert(r3 =~= r2 + entry_of(m, ActionKind::GetMessage));
            assert(r@ =~= r3 + entry_of(m, ActionKind::SendMessage));
            let end1 = r1.len() as int;
            let end2 = r2.len() as int;
            let end3 = r3.len() as int;
            assert(r2.subrange(0, end1) == r1);
            assert(r3.subrange(0, end2) == r2);
            assert(r@.subrange(0, end3) == r3);
            assert forall|i: int| 0 <= i < r@.len() implies before.slot(#[trigger] r@[i].kind())
                == Some(r@[i]) by {
                if i < end1 {
                    assert(r@[i] == r3[i] && r3[i] == r2[i] && r2[i] == r1[i]);
                } else if i < end2 {
                    assert(r@[i] == r3[i] && r3[i] == r2[i]);
                } else if i < end3 {
                    assert(r@[i] == r3[i]);
                }
            }
            assert forall|i: int, j: int| 0 <= i < j < r@.len() implies #[trigger] r@[i].kind()
                != #[trigger] r@[j].kind() by {
                if i < end1 {
                    assert(r@[i] == r3[i] && r3[i] == r2[i] && r2[i] == r1[i]);
                } else if i < end2 {
                    assert(r@[i] == r3[i] && r3[i] == r2[i]);
                } else if i < end3 {
                    assert(r@[i] == r3[i]);
                }
                if j < end1 {
                    assert(r@[j] == r3[j] && r3[j] == r2[j] && r2[j] == r1[j]);
                } else if j < end2 {
                    assert(r@[j] == r3[j] && r3[j] == r2[j]);
                } else if j < end3 {
                    assert(r@[j] == r3[j]);
                }
            }
            assert forall|k: ActionKind| #[trigger] before@.contains_key(k) implies r@.contains(
                before@[k],
            ) by {
                let p = match k {
                    ActionKind::ListFolders => 0,
                    ActionKind::ListEnvelopes => end1,
                    ActionKind::GetMessage => end2,
                    ActionKind::SendMessage => end3,
                };
                assert(r@[p] == before@[k]);
            }
        }
        assert(self@ =~= Map::<ActionKind, Actions>::empty());
        r
    }
}

impl View for PendingSet {
    type V = Map<ActionKind, Actions>;

    closed spec fn view(&self) -> Map<ActionKind, Actions> {
        Map::new(|k: ActionKind| self.slot(k) is Some, |k: ActionKind| self.slot(k)->0)
    }
}

/// At every point of any run of submissions the pending set holds at most
/// one intent of each kind: each entry sits under its own kind, and a map has
/// one entry per key.
pub proof fn lemma_one_intent_per_kind(m: Map<ActionKind, Actions>, s: Seq<Actions>)
    requires
        keyed_by_kind(m),
    ensures
        keyed_by_kind(after_submits(m, s)),
    decreases s.len(),
{
    if s.len() > 0 {
        lemma_one_intent_per_kind(m, s.drop_last());
    }
}

/// Of the intents of one kind submitted with no drain in between, the one that
/// stays pending, and so the only one that can be executed, is the last.
pub proof fn lemma_last_submission_wins(m: Map<ActionKind, Actions>, s: Seq<Actions>, i: int)
    requires
        0 <= i < s.len(),
        forall|j: int| i < j < s.len() ==> #[trigger] s[j].kind() != s[i].kind(),
    ensures
        after_submits(m, s).contains_key(s[i].kind()),
        after_submits(m, s)[s[i].kind()] == s[i],
    decreases s.len(),
{
    if i < s.len() - 1 {
        let p = s.drop_last();
        assert forall|j: int| i < j < p.len() implies #[trigger] p[j].kind() != p[i].kind() by {
            assert(p[j] == s[j]);
        }
        lemma_last_submission_wins(m, p, i);
        assert(s.last().kind() != s[i].kind());
    }
}

} // verus!
