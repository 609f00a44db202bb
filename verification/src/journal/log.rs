//! The journal itself: entries in the order in which their operations began.

use vstd::prelude::*;
use crate::journal::action::JournalAction;
use crate::journal::entry::{actions_view, unix_now_secs, EntryId, JournalEntry, JournalEntryView};
use crate::{opt_text, FontError, FontErrorView};
use vstd::string::StringExecFns;

verus! {

/// What can go wrong with the journal.
#[derive(Debug)]
pub enum JournalError {
    /// Reading, writing or renaming the journal file failed.
    IoError(String),
    /// The journal file exists and cannot be read as a journal.
    InvalidFormat(String),
    /// No entry has the identifier that the caller gave.
    EntryNotFound(EntryId),
}

/// The mathematical value of a [`JournalError`].
pub enum JournalErrorView {
    IoError(Seq<char>),
    InvalidFormat(Seq<char>),
    EntryNotFound(EntryId),
}

impl View for JournalError {
    type V = JournalErrorView;

    open spec fn view(&self) -> JournalErrorView {
        match self {
            JournalError::IoError(cause) => JournalErrorView::IoError(cause@),
            JournalError::InvalidFormat(cause) => JournalErrorView::InvalidFormat(cause@),
            JournalError::EntryNotFound(id) => JournalErrorView::EntryNotFound(*id),
        }
    }
}

/// The text of the identifier `id`, as `uuid::Uuid` writes the UUID of those
/// 128 bits.
pub uninterp spec fn entry_id_text(id: u128) -> Seq<char>;

/// The identifier written as a UUID.
///
/// Trusted: `uuid::Uuid::from_u128` and the `Display` of `Uuid`, which
/// writes the hyphenated lower-case form. The contract only gives the text
/// its name.
#[verifier::external_body]
pub(crate) fn id_text(id: EntryId) -> (text: String)
    ensures
        text@ == entry_id_text(id.0),
{
    uuid::Uuid::from_u128(id.0).to_string()
}

impl JournalErrorView {
    /// The error as the font manager reports it: an unknown identifier is a
    /// journal that is not what the caller took it for.
    pub open spec fn as_font_error(self) -> FontErrorView {
        match self {
            JournalErrorView::IoError(cause) => FontErrorView::IoError(cause),
            JournalErrorView::InvalidFormat(cause) => FontErrorView::InvalidFormat(cause),
            JournalErrorView::EntryNotFound(id) => FontErrorView::InvalidFormat(
                "Journal entry not found: "@ + entry_id_text(id.0),
            ),
        }
    }
}

impl JournalError {
    /// The error as the font manager reports it.
    pub fn into_font_error(self) -> (err: FontError)
        ensures
            err@ == self@.as_font_error(),
    {
        match self {
            JournalError::IoError(cause) => FontError::IoError(cause),
            JournalError::InvalidFormat(cause) => FontError::InvalidFormat(cause),
            JournalError::EntryNotFound(id) => {
                let mut text = String::from_str("Journal entry not found: ");
                let written = id_text(id);
                text.append(written.as_str());
                FontError::InvalidFormat(text)
            },
        }
    }
}

/// The values of a sequence of entries.
pub open spec fn entries_view(entries: Seq<JournalEntry>) -> Seq<JournalEntryView> {
    entries.map_values(|e: JournalEntry| e@)
}

/// Whether no entry of `entries` has the identifier `id`.
pub open spec fn id_absent(entries: Seq<JournalEntryView>, id: EntryId) -> bool {
    forall|j: int| 0 <= j < entries.len() ==> (#[trigger] entries[j]).id != id
}

/// Whether `i` is the position of the first entry with the identifier `id`.
pub open spec fn first_with_id(entries: Seq<JournalEntryView>, id: EntryId, i: int) -> bool {
    &&& 0 <= i < entries.len()
    &&& entries[i].id == id
    &&& forall|j: int| 0 <= j < i ==> (#[trigger] entries[j]).id != id
}

/// The entries with the cursor of the entry at position `i` set to `step`.
pub open spec fn with_step(entries: Seq<JournalEntryView>, i: int, step: nat) -> Seq<
    JournalEntryView,
> {
    entries.update(i, JournalEntryView { current_step: step, ..entries[i] })
}

/// The entries with the entry at position `i` closed.
pub open spec fn closed_at(entries: Seq<JournalEntryView>, i: int) -> Seq<JournalEntryView> {
    entries.update(i, JournalEntryView { completed: true, ..entries[i] })
}

/// Whether an entry stays when the journal is pruned at time `now`: open
/// entries always; closed ones only under a maximum age above zero, while
/// they are younger than it or their start lies after `now`.
pub open spec fn survives_cleanup(e: JournalEntryView, now: u64, max_age_secs: u64) -> bool {
    !e.completed || (max_age_secs > 0 && (e.started_at > now || now - e.started_at
        < max_age_secs))
}

/// The open entries, in their order.
pub open spec fn open_entries(entries: Seq<JournalEntryView>) -> Seq<JournalEntryView> {
    entries.filter(|e: JournalEntryView| !e.completed)
}

/// The journal that pruning at time `now` leaves: the entries that survive,
/// in their order.
pub open spec fn cleaned(
    entries: Seq<JournalEntryView>,
    now: u64,
    max_age_secs: u64,
) -> Seq<JournalEntryView> {
    entries.filter(|e: JournalEntryView| survives_cleanup(e, now, max_age_secs))
}

/// Two filters that agree on every element of a sequence give the same
/// result.
pub proof fn lemma_filters_agree<A>(s: Seq<A>, p: spec_fn(A) -> bool, q: spec_fn(A) -> bool)
    requires
        forall|i: int| 0 <= i < s.len() ==> p(#[trigger] s[i]) == q(s[i]),
    ensures
        s.filter(p) == s.filter(q),
    decreases s.len(),
{
    reveal(Seq::filter);
    if s.len() > 0 {
        assert forall|i: int| 0 <= i < s.drop_last().len() implies p(#[trigger] s.drop_last()[i])
            == q(s.drop_last()[i]) by {
            assert(s.drop_last()[i] == s[i]);
        }
        lemma_filters_agree(s.drop_last(), p, q);
        assert(p(s.last()) == q(s.last()));
    }
}

/// Pruning with a maximum age of zero leaves exactly the open entries,
/// whatever the time.
pub proof fn lemma_cleaned_at_age_zero(entries: Seq<JournalEntryView>, now: u64)
    ensures
        cleaned(entries, now, 0) == open_entries(entries),
{
    lemma_filters_agree(
        entries,
        |e: JournalEntryView| survives_cleanup(e, now, 0),
        |e: JournalEntryView| !e.completed,
    );
}

/// The identifiers of the entries, as numbers.
pub open spec fn id_numbers(entries: Seq<JournalEntryView>) -> Seq<int> {
    entries.map_values(|e: JournalEntryView| e.id.0 as int)
}

/// Whether no entry has the number `c` as its identifier.
pub open spec fn number_unused(entries: Seq<JournalEntryView>, c: int) -> bool {
    id_absent(entries, EntryId(c as u128))
}

/// Of the numbers from 0 up to the number of entries, one is the identifier
/// of no entry: there is one number more than there are entries.
pub proof fn lemma_a_small_id_is_unused(entries: Seq<JournalEntryView>)
    requires
        entries.len() <= usize::MAX,
    ensures
        exists|c: int| 0 <= c <= entries.len() && #[trigger] number_unused(entries, c),
{
    if forall|c: int| 0 <= c <= entries.len() ==> !#[trigger] number_unused(entries, c) {
        let numbers = id_numbers(entries);
        let bound = entries.len() as int + 1;
        let small = vstd::set_lib::set_int_range(0, bound);
        assert forall|c: int| small.contains(c) implies numbers.to_set().contains(c) by {
            assert(!number_unused(entries, c));
            assert(0 <= c <= u128::MAX);
            let j = choose|j: int| 0 <= j < entries.len() && (#[trigger] entries[j]).id == EntryId(
                c as u128,
            );
            assert(numbers[j] == c);
        }
        assert(small.subset_of(numbers.to_set()));
        vstd::set_lib::lemma_int_range(0, bound);
        numbers.lemma_cardinality_of_set();
        vstd::seq_lib::seq_to_set_is_finite(numbers);
        vstd::set_lib::lemma_len_subset(small, numbers.to_set());
        assert(false);
    }
}

/// An ordered collection of entries.
#[derive(Debug)]
pub struct Journal {
    /// The entries; the order of insertion is the order of the operations.
    pub entries: Vec<JournalEntry>,
}

impl View for Journal {
    type V = Seq<JournalEntryView>;

    open spec fn view(&self) -> Seq<JournalEntryView> {
        entries_view(self.entries@)
    }
}

impl Clone for Journal {
    fn clone(&self) -> (res: Self)
        ensures
            res@ == self@,
    {
        let mut entries: Vec<JournalEntry> = Vec::new();
        let mut i: usize = 0;
        while i < self.entries.len()
            invariant
                i <= self.entries.len(),
                entries.len() == i,
                forall|j: int| 0 <= j < i ==> entries[j]@ == self.entries[j]@,
            decreases self.entries.len() - i,
        {
            entries.push(self.entries[i].clone());
            i += 1;
        }
        assert(entries_view(entries@) =~= entries_view(self.entries@));
        Journal { entries }
    }
}

impl Default for Journal {
    fn default() -> (journal: Self)
        ensures
            journal@ == Seq::<JournalEntryView>::empty(),
    {
        Journal::new()
    }
}

impl Journal {
    /// A journal without entries.
    pub fn new() -> (journal: Self)
        ensures
            journal@ == Seq::<JournalEntryView>::empty(),
    {
        let journal = Journal { entries: Vec::new() };
        assert(journal@ =~= Seq::<JournalEntryView>::empty());
        journal
    }

    /// The smallest identifier that no entry of the journal has.
    pub fn unused_id(&self) -> (id: EntryId)
        ensures
            id_absent(self@, id),
            id.0 <= self@.len(),
            forall|c: int| 0 <= c < id.0 ==> !#[trigger] number_unused(self@, c),
    {
        let mut candidate: usize = 0;
        while candidate < self.entries.len()
            invariant
                candidate <= self.entries.len(),
                forall|c: int| 0 <= c < candidate ==> !#[trigger] number_unused(self@, c),
            decreases self.entries.len() - candidate,
        {
            if self.find_index(EntryId(candidate as u128)).is_none() {
                return EntryId(candidate as u128);
            }
            candidate += 1;
        }
        proof {
            lemma_a_small_id_is_unused(self@);
        }
        EntryId(candidate as u128)
    }

    /// Appends an entry for `actions` and returns its identifier, which no
    /// entry of the journal had before. The entry starts at step 0 and open;
    /// the entries before it are untouched.
    ///
    /// The identifier is drawn at random; should an entry have it already,
    /// the smallest identifier that no entry has is taken in its place.
    pub fn record_operation(
        &mut self,
        actions: Vec<JournalAction>,
        description: Option<String>,
    ) -> (id: EntryId)
        ensures
            final(self)@.len() == old(self)@.len() + 1,
            final(self)@.drop_last() == old(self)@,
            final(self)@.last() == JournalEntryView::fresh(
                id,
                final(self)@.last().started_at,
                actions_view(actions@),
                opt_text(description),
            ),
            id_absent(old(self)@, id),
    {
        let mut entry = JournalEntry::new(actions, description);
        if self.find_index(entry.id).is_some() {
            entry.id = self.unused_id();
        }
        let id = entry.id;
        self.entries.push(entry);
        assert(final(self)@.drop_last() =~= old(self)@);
        id
    }

    /// The position of the first entry with the identifier `id`.
    pub fn find_index(&self, id: EntryId) -> (found: Option<usize>)
        ensures
            match found {
                Some(i) => first_with_id(self@, id, i as int),
                None => id_absent(self@, id),
            },
    {
        let mut i: usize = 0;
        while i < self.entries.len()
            invariant
                i <= self.entries.len(),
                forall|j: int| 0 <= j < i ==> (#[trigger] self@[j]).id != id,
            decreases self.entries.len() - i,
        {
            if self.entries[i].id == id {
                return Some(i);
            }
            i += 1;
        }
        None
    }

    /// The first entry with the identifier `id`.
    pub fn find_entry(&self, id: EntryId) -> (found: Option<&JournalEntry>)
        ensures
            match found {
                Some(e) => exists|i: int|
                    first_with_id(self@, id, i) && *e == self.entries@[i] && e@ == self@[i],
                None => id_absent(self@, id),
            },
    {
        match self.find_index(id) {
            Some(i) => {
                assert(first_with_id(self@, id, i as int));
                Some(&self.entries[i])
            },
            None => None,
        }
    }

    /// The first entry with the identifier `id`, for changing it in place.
    /// Whatever the caller writes through the reference becomes that entry;
    /// every other entry stays.
    pub fn find_entry_mut(&mut self, id: EntryId) -> (found: Option<&mut JournalEntry>)
        ensures
            match found {
                Some(e) => exists|i: int|
                    first_with_id(old(self)@, id, i) && *e == old(self).entries@[i]
                        && final(self).entries@ == old(self).entries@.update(i, *final(e)),
                None => id_absent(old(self)@, id) && *final(self) == *old(self),
            },
    {
        match self.find_index(id) {
            Some(i) => {
                assert(first_with_id(self@, id, i as int));
                Some(&mut self.entries[i])
            },
            None => None,
        }
    }

    /// Sets the cursor of the first entry with the identifier `id` to `step`.
    /// Fails with `EntryNotFound`, changing nothing, exactly when no entry has
    /// that identifier.
    pub fn mark_step(&mut self, id: EntryId, step: usize) -> (res: Result<(), JournalError>)
        ensures
            match res {
                Ok(()) => exists|i: int|
                    first_with_id(old(self)@, id, i) && final(self)@ == with_step(
                        old(self)@,
                        i,
                        step as nat,
                    ),
                Err(e) => e@ == JournalErrorView::EntryNotFound(id) && id_absent(old(self)@, id)
                    && final(self)@ == old(self)@,
            },
    {
        match self.find_index(id) {
            Some(i) => {
                self.entries[i].current_step = step;
                assert(final(self)@ =~= with_step(old(self)@, i as int, step as nat));
                Ok(())
            },
            None => Err(JournalError::EntryNotFound(id)),
        }
    }

    /// Closes the first entry with the identifier `id`, whatever its cursor.
    /// Fails with `EntryNotFound`, changing nothing, exactly when no entry has
    /// that identifier.
    pub fn mark_completed(&mut self, id: EntryId) -> (res: Result<(), JournalError>)
        ensures
            match res {
                Ok(()) => exists|i: int|
                    first_with_id(old(self)@, id, i) && final(self)@ == closed_at(old(self)@, i),
                Err(e) => e@ == JournalErrorView::EntryNotFound(id) && id_absent(old(self)@, id)
                    && final(self)@ == old(self)@,
            },
    {
        match self.find_index(id) {
            Some(i) => {
                self.entries[i].completed = true;
                assert(final(self)@ =~= closed_at(old(self)@, i as int));
                Ok(())
            },
            None => Err(JournalError::EntryNotFound(id)),
        }
    }

    /// The incomplete entries, in journal order.
    pub fn incomplete_entries(&self) -> (found: Vec<&JournalEntry>)
        ensures
            found@.map_values(|e: &JournalEntry| e@) == self@.filter(
                |e: JournalEntryView| e.is_incomplete(),
            ),
    {
        let ghost pred = |e: JournalEntryView| e.is_incomplete();
        let mut found: Vec<&JournalEntry> = Vec::new();
        let mut i: usize = 0;
        proof {
            assert(self@.take(0) =~= Seq::<JournalEntryView>::empty());
            assert(found@.map_values(|e: &JournalEntry| e@) =~= self@.take(0).filter(pred));
        }
        while i < self.entries.len()
            invariant
                i <= self.entries.len(),
                pred == (|e: JournalEntryView| e.is_incomplete()),
                found@.map_values(|e: &JournalEntry| e@) == self@.take(i as int).filter(pred),
            decreases self.entries.len() - i,
        {
            let ghost before = found@.map_values(|e: &JournalEntry| e@);
            let entry = &self.entries[i];
            proof {
                assert(self@.take(i + 1).drop_last() =~= self@.take(i as int));
                assert(self@.take(i + 1).last() == entry@);
                reveal(Seq::filter);
            }
            if entry.is_incomplete() {
                found.push(entry);
                assert(found@.map_values(|e: &JournalEntry| e@) =~= before.push(entry@));
            }
            i += 1;
        }
        assert(self@.take(i as int) =~= self@);
        found
    }

    /// Removes the closed entries that are at least `max_age_secs` old at
    /// time `now`; with a maximum age of zero that is every closed entry.
    /// Open entries stay, and under a maximum age above zero so does a closed
    /// entry whose start lies after `now`; what stays keeps its order.
    pub fn cleanup_old_entries_at(&mut self, now: u64, max_age_secs: u64)
        ensures
            final(self)@ == cleaned(old(self)@, now, max_age_secs),
            max_age_secs == 0 ==> final(self)@ == open_entries(old(self)@),
    {
        let ghost pred = |e: JournalEntryView| survives_cleanup(e, now, max_age_secs);
        let ghost all = self@;
        let ghost mut done: int = 0;
        let mut i: usize = 0;
        proof {
            assert(all.take(0) =~= Seq::<JournalEntryView>::empty());
            assert(self@ =~= all.take(0).filter(pred) + all.skip(0));
        }
        while i < self.entries.len()
            invariant
                0 <= done <= all.len(),
                pred == (|e: JournalEntryView| survives_cleanup(e, now, max_age_secs)),
                i == all.take(done).filter(pred).len(),
                self@ == all.take(done).filter(pred) + all.skip(done),
            decreases all.len() - done,
        {
            let ghost before = self@;
            proof {
                assert(before[i as int] == all.skip(done)[0]);
                assert(done < all.len());
                assert(all.take(done + 1).drop_last() =~= all.take(done));
                assert(all.take(done + 1).last() == all[done]);
                reveal(Seq::filter);
            }
            let entry = &self.entries[i];
            let stays = !entry.completed || (max_age_secs > 0 && (entry.started_at > now || now
                - entry.started_at < max_age_secs));
            if stays {
                i += 1;
                assert(self@ =~= all.take(done + 1).filter(pred) + all.skip(done + 1));
            } else {
                let _ = self.entries.remove(i);
                assert(self@ =~= before.remove(i as int));
                assert(self@ =~= all.take(done + 1).filter(pred) + all.skip(done + 1));
            }
            proof {
                done = done + 1;
            }
        }
        proof {
            assert(all.skip(done).len() == 0);
            assert(done == all.len());
            assert(all.take(done) =~= all);
            assert(self@ =~= all.filter(pred));
            lemma_cleaned_at_age_zero(all, now);
        }
    }

    /// Removes the closed entries that are at least `max_age_secs` old by the
    /// wall clock; with a maximum age of zero that is every closed entry,
    /// whatever the clock shows. The clock is read once; the result is that
    /// of [`Journal::cleanup_old_entries_at`] for the time it showed.
    pub fn cleanup_old_entries(&mut self, max_age_secs: u64)
        ensures
            exists|now: u64| final(self)@ == #[trigger] cleaned(old(self)@, now, max_age_secs),
            max_age_secs == 0 ==> final(self)@ == open_entries(old(self)@),
    {
        let now = unix_now_secs();
        self.cleanup_old_entries_at(now, max_age_secs);
    }
}

} // verus!
