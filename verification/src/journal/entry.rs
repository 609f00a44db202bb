//! One recorded operation: its ordered actions and how far it has come.

use vstd::prelude::*;
use crate::journal::action::{JournalAction, JournalActionView};
use crate::{clone_opt_text, opt_text};

verus! {

/// Identifier of a journal entry: the 128 bits of a random UUID.
#[derive(Debug, Clone, Copy, PartialEq, Eq, Structural, Hash)]
pub struct EntryId(pub u128);

/// A fresh identifier.
///
/// Trusted: `uuid::Uuid::new_v4`, which draws a random UUID, and
/// `Uuid::as_u128`, which hands out its 128 bits. The value is random, so
/// nothing is promised of it.
#[verifier::external_body]
pub(crate) fn fresh_entry_id() -> EntryId {
    EntryId(uuid::Uuid::new_v4().as_u128())
}

/// The wall clock in whole seconds since the Unix epoch.
///
/// Trusted: `std::time::SystemTime::now`. The value is the time of the call,
/// so nothing is promised of it; a clock set before the epoch reads as 0.
#[verifier::external_body]
pub(crate) fn unix_now_secs() -> u64 {
    std::time::SystemTime::now().duration_since(std::time::UNIX_EPOCH).map(|d| d.as_secs())
        .unwrap_or(0)
}

/// The values of a sequence of actions.
pub open spec fn actions_view(actions: Seq<JournalAction>) -> Seq<JournalActionView> {
    actions.map_values(|a: JournalAction| a@)
}

/// A copy of a list of actions.
pub fn clone_actions(actions: &Vec<JournalAction>) -> (res: Vec<JournalAction>)
    ensures
        actions_view(res@) == actions_view(actions@),
{
    let mut res: Vec<JournalAction> = Vec::new();
    let mut i: usize = 0;
    while i < actions.len()
        invariant
            i <= actions.len(),
            res.len() == i,
            forall|j: int| 0 <= j < i ==> res[j]@ == actions[j]@,
        decreases actions.len() - i,
    {
        res.push(actions[i].clone());
        i += 1;
    }
    assert(actions_view(res@) =~= actions_view(actions@));
    res
}

/// A multi-step operation as the journal records it.
#[derive(Debug)]
pub struct JournalEntry {
    /// Identifier, drawn at creation and never changed.
    pub id: EntryId,
    /// When the operation started, in seconds since the Unix epoch.
    pub started_at: u64,
    /// Whether the operation has been closed.
    pub completed: bool,
    /// The actions of the operation, in the order in which they are carried out.
    pub actions: Vec<JournalAction>,
    /// How many of the actions are done: the index of the next one.
    pub current_step: usize,
    /// What the operation is, in words.
    pub description: Option<String>,
}

/// The mathematical value of a [`JournalEntry`].
pub struct JournalEntryView {
    pub id: EntryId,
    pub started_at: u64,
    pub completed: bool,
    pub actions: Seq<JournalActionView>,
    pub current_step: nat,
    pub description: Option<Seq<char>>,
}

impl JournalEntryView {
    /// An entry is incomplete when it is not closed and has actions at all.
    pub open spec fn is_incomplete(self) -> bool {
        !self.completed && self.actions.len() > 0
    }

    /// The action at the cursor, if the cursor stands on one.
    pub open spec fn current_action(self) -> Option<JournalActionView> {
        if self.current_step < self.actions.len() {
            Some(self.actions[self.current_step as int])
        } else {
            None
        }
    }

    /// The actions from the cursor on; none when the cursor is at or past the end.
    pub open spec fn remaining_actions(self) -> Seq<JournalActionView> {
        if self.current_step < self.actions.len() {
            self.actions.subrange(self.current_step as int, self.actions.len() as int)
        } else {
            Seq::empty()
        }
    }

    /// The cursor stands inside the actions or just behind the last one.
    pub open spec fn cursor_in_range(self) -> bool {
        self.current_step <= self.actions.len()
    }

    /// The entry as it is first recorded: at step 0 and open.
    pub open spec fn fresh(
        id: EntryId,
        started_at: u64,
        actions: Seq<JournalActionView>,
        description: Option<Seq<char>>,
    ) -> JournalEntryView {
        JournalEntryView {
            id,
            started_at,
            completed: false,
            actions,
            current_step: 0,
            description,
        }
    }
}

impl View for JournalEntry {
    type V = JournalEntryView;

    open spec fn view(&self) -> JournalEntryView {
        JournalEntryView {
            id: self.id,
            started_at: self.started_at,
            completed: self.completed,
            actions: actions_view(self.actions@),
            current_step: self.current_step as nat,
            description: opt_text(self.description),
        }
    }
}

impl Clone for JournalEntry {
    fn clone(&self) -> (res: Self)
        ensures
            res@ == self@,
    {
        JournalEntry {
            id: self.id,
            started_at: self.started_at,
            completed: self.completed,
            actions: clone_actions(&self.actions),
            current_step: self.current_step,
            description: clone_opt_text(&self.description),
        }
    }
}

impl JournalEntry {
    /// An entry for `actions`, with a fresh identifier and the present time,
    /// at step 0 and open.
    pub fn new(actions: Vec<JournalAction>, description: Option<String>) -> (entry: Self)
        ensures
            entry@ == JournalEntryView::fresh(
                entry.id,
                entry.started_at,
                actions_view(actions@),
                opt_text(description),
            ),
    {
        let id = fresh_entry_id();
        let started_at = unix_now_secs();
        JournalEntry::with_identity(id, started_at, actions, description)
    }

    /// An entry for `actions` with the given identifier and start time, at
    /// step 0 and open.
    pub fn with_identity(
        id: EntryId,
        started_at: u64,
        actions: Vec<JournalAction>,
        description: Option<String>,
    ) -> (entry: Self)
        ensures
            entry@ == JournalEntryView::fresh(
                id,
                started_at,
                actions_view(actions@),
                opt_text(description),
            ),
    {
        JournalEntry { id, started_at, completed: false, actions, current_step: 0, description }
    }

    /// Whether the operation was started and not finished.
    pub fn is_incomplete(&self) -> (incomplete: bool)
        ensures
            incomplete == self@.is_incomplete(),
            incomplete == (!self.completed && self.actions@.len() > 0),
    {
        !self.completed && !self.actions.is_empty()
    }

    /// The action at the cursor, or `None` past the end.
    pub fn current_action(&self) -> (action: Option<&JournalAction>)
        ensures
            match action {
                Some(a) => self.current_step < self.actions@.len() && *a
                    == self.actions@[self.current_step as int] && self@.current_action() == Some(
                    a@,
                ),
                None => self.current_step >= self.actions@.len() && self@.current_action()
                    is None,
            },
    {
        if self.current_step < self.actions.len() {
            Some(&self.actions[self.current_step])
        } else {
            None
        }
    }

    /// The actions from the cursor on; empty past the end.
    pub fn remaining_actions(&self) -> (remaining: &[JournalAction])
        ensures
            actions_view(remaining@) == self@.remaining_actions(),
            self.current_step < self.actions@.len() ==> remaining@ == self.actions@.subrange(
                self.current_step as int,
                self.actions@.len() as int,
            ),
            self.current_step >= self.actions@.len() ==> remaining@.len() == 0,
    {
        let total = self.actions.len();
        if self.current_step < total {
            let remaining = &self.actions.as_slice()[self.current_step..total];
            assert(actions_view(remaining@) =~= self@.remaining_actions());
            remaining
        } else {
            let remaining = &self.actions.as_slice()[0..0];
            assert(actions_view(remaining@) =~= self@.remaining_actions());
            remaining
        }
    }
}

} // verus!
