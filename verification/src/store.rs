use vstd::prelude::*;

use crate::errors::ReminderError;
use crate::reminder::Reminder;
use crate::reminder::ReminderView;
use crate::reminder::TickOutcome;
use crate::reminder::spec_tick;
use crate::reminder::spec_tick_outcome;
use crate::schedule::MAX_INSTANT;

verus! {

/// The views of a sequence of reminders, in order.
pub open spec fn views_of(rs: Seq<Reminder>) -> Seq<ReminderView> {
    rs.map_values(|r: Reminder| r@)
}

/// An ordered collection of reminders. A reminder's only identity is its
/// current position, so removing one shifts every later position down.
pub struct ReminderStore {
    reminders: Vec<Reminder>,
}

impl View for ReminderStore {
    type V = Seq<ReminderView>;

    closed spec fn view(&self) -> Seq<ReminderView> {
        views_of(self.reminders@)
    }
}

impl ReminderStore {
    /// An empty store.
    pub fn new() -> (r: ReminderStore)
        ensures
            r@ == Seq::<ReminderView>::empty(),
    {
        let r = ReminderStore { reminders: Vec::new() };
        proof {
            assert(r@ =~= Seq::<ReminderView>::empty());
        }
        r
    }

    /// How many reminders the store holds.
    pub fn len(&self) -> (n: usize)
        ensures
            n == self@.len(),
    {
        self.reminders.len()
    }

    /// The reminder at position `index`.
    pub fn get(&self, index: usize) -> (r: &Reminder)
        requires
            index < self@.len(),
        ensures
            r@ == self@[index as int],
    {
        &self.reminders[index]
    }

    /// Appends a reminder; it takes the last position.
    pub fn add(&mut self, reminder: Reminder)
        ensures
            final(self)@ == old(self)@.push(reminder@),
    {
        let ghost prior = self.reminders@;
        self.reminders.push(reminder);
        proof {
            assert(self@ =~= views_of(prior).push(self.reminders@.last()@));
        }
    }

    /// Removes and returns the reminder at position `index`; every later
    /// reminder shifts one position down. An index that names no position
    /// fails with an out-of-range error and leaves the store untouched.
    pub fn remove(&mut self, index: usize) -> (r: Result<Reminder, ReminderError>)
        ensures
            index < old(self)@.len() ==> (r matches Ok(rem) && rem@ == old(self)@[index as int]
                && final(self)@ == old(self)@.remove(index as int)),
            index >= old(self)@.len() ==> (r matches Err(e) && e == ReminderError::IndexOutOfRange
                && final(self)@ == old(self)@),
    {
        let ghost prior = self.reminders@;
        if index < self.reminders.len() {
            let rem = self.reminders.remove(index);
            proof {
                assert(self@ =~= views_of(prior).remove(index as int));
            }
            Ok(rem)
        } else {
            Err(ReminderError::IndexOutOfRange)
        }
    }

    /// Lists the reminders with their current positional identifiers. The
    /// identifier of an entry is exactly its position, assigned at listing
    /// time and stable only until the next removal.
    pub fn list(&self) -> (entries: Vec<ListEntry>)
        ensures
            entries@.len() == self@.len(),
            forall|i: int| 0 <= i < self@.len() ==> {
                let e = #[trigger] entries@[i];
                e.id == i && e.summary@ == self@[i].summary && e.description@
                    == self@[i].description && e.schedule@ == self@[i].schedule
            },
    {
        let mut entries: Vec<ListEntry> = Vec::new();
        let mut i: usize = 0;
        while i < self.reminders.len()
            invariant
                i <= self.reminders@.len(),
                entries@.len() == i,
                forall|j: int| 0 <= j < i ==> {
                    let e = #[trigger] entries@[j];
                    e.id == j && e.summary@ == self@[j].summary && e.description@
                        == self@[j].description && e.schedule@ == self@[j].schedule
                },
            decreases self.reminders@.len() - i,
        {
            let r = &self.reminders[i];
            let entry = ListEntry {
                id: i,
                summary: r.summary.clone(),
                description: r.description.clone(),
                schedule: r.schedule.render(),
            };
            entries.push(entry);
            i = i + 1;
        }
        entries
    }

    /// One poll-loop iteration: visits every reminder exactly once, in
    /// store order, ticking each at the same instant `now`. The outcome
    /// and the new state at each position are a function of that
    /// position's own prior state and `now` alone: reminders never
    /// influence each other's fire decisions.
    pub fn tick_all(&mut self, now: i64) -> (outcomes: Vec<TickOutcome>)
        requires
            0 <= now < MAX_INSTANT,
        ensures
            outcomes@.len() == old(self)@.len(),
            final(self)@.len() == old(self)@.len(),
            forall|i: int| 0 <= i < old(self)@.len() ==> final(self)@[i] == spec_tick(
                old(self)@[i],
                now as int,
            ) && #[trigger] outcomes@[i] == spec_tick_outcome(old(self)@[i], now as int),
    {
        let ghost prior = self@;
        let mut outcomes: Vec<TickOutcome> = Vec::new();
        let mut done: Vec<Reminder> = Vec::new();
        while self.reminders.len() > 0
            invariant
                0 <= now < MAX_INSTANT,
                done@.len() + self.reminders@.len() == prior.len(),
                outcomes@.len() == done@.len(),
                forall|j: int| 0 <= j < done@.len() ==> (#[trigger] done@[j])@ == spec_tick(
                    prior[j],
                    now as int,
                ),
                forall|j: int| 0 <= j < outcomes@.len() ==> #[trigger] outcomes@[j]
                    == spec_tick_outcome(prior[j], now as int),
                forall|j: int| 0 <= j < self.reminders@.len() ==> (
                #[trigger] self.reminders@[j])@ == prior[done@.len() + j],
            decreases self.reminders@.len(),
        {
            let ghost dlen = done@.len() as int;
            let mut r = self.reminders.remove(0);
            proof {
                assert(r@ == prior[dlen]);
            }
            let outcome = r.tick(now);
            let ghost done_snap = done@;
            let ghost out_snap = outcomes@;
            let ghost r_snap = r@;
            outcomes.push(outcome);
            done.push(r);
            proof {
                assert forall|j: int| 0 <= j < done@.len() implies (#[trigger] done@[j])@
                    == spec_tick(prior[j], now as int) by {
                    if j < dlen {
                        assert(done@[j] == done_snap[j]);
                    } else {
                        assert(done@[j]@ == r_snap);
                        assert(r_snap == spec_tick(prior[dlen], now as int));
                    }
                }
                assert forall|j: int| 0 <= j < outcomes@.len() implies #[trigger] outcomes@[j]
                    == spec_tick_outcome(prior[j], now as int) by {
                    if j < dlen {
                        assert(outcomes@[j] == out_snap[j]);
                    }
                }
            }
        }
        self.reminders = done;
        proof {
            assert(forall|i: int| 0 <= i < prior.len() ==> #[trigger] self@[i] == spec_tick(
                prior[i],
                now as int,
            ));
        }
        outcomes
    }
}

/// One row of a listing: a reminder's content tagged with its current
/// positional identifier.
pub struct ListEntry {
    pub id: usize,
    pub summary: String,
    pub description: String,
    pub schedule: String,
}

/// Independence: a reminder's tick outcome and new state depend on its
/// own prior state and the instant alone; whatever the other reminders in
/// either collection hold, position `i` behaves the same.
pub proof fn lemma_independence(a: Seq<ReminderView>, b: Seq<ReminderView>, i: int, now: int)
    requires
        0 <= i < a.len(),
        0 <= i < b.len(),
        a[i] == b[i],
    ensures
        spec_tick(a[i], now) == spec_tick(b[i], now),
        spec_tick_outcome(a[i], now) == spec_tick_outcome(b[i], now),
{
}

/// Removal reindexing: removing position `i` moves every reminder that
/// stood after it down by exactly one position and touches no other.
pub proof fn lemma_removal_reindexing(s: Seq<ReminderView>, i: int, j: int)
    requires
        0 <= i < s.len(),
        0 <= j < s.len(),
        j != i,
    ensures
        j > i ==> s.remove(i)[j - 1] == s[j],
        j < i ==> s.remove(i)[j] == s[j],
{
}

} // verus!
