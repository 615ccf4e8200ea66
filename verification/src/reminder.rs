use vstd::prelude::*;

use crate::errors::ReminderError;
use crate::schedule::CronSchedule;
use crate::schedule::MAX_INSTANT;
use crate::schedule::schedule_parses;
use crate::schedule::spec_candidate;

verus! {

/// What one tick of the transition detector did for one reminder.
#[derive(Clone, Copy, Debug, PartialEq, Eq, Structural)]
pub enum TickOutcome {
    /// First observation: a baseline was cached, nothing fires.
    Primed,
    /// The cached occurrence rolled over: exactly one notification fires.
    Fired,
    /// No boundary was crossed: nothing changes.
    Held,
    /// The engine yielded no occurrence: a fatal fault for this reminder.
    Exhausted,
}

/// The mathematical content of a reminder: its texts, its schedule
/// expression, and the cached second-upcoming occurrence.
#[verifier::ext_equal]
pub ghost struct ReminderView {
    pub summary: Seq<char>,
    pub description: Seq<char>,
    pub schedule: Seq<char>,
    pub upcoming: Option<int>,
}

/// The detector's decision, given the cached occurrence and the freshly
/// computed candidate: prime an empty cache silently, fire exactly when a
/// present cache disagrees with the candidate, and treat a missing
/// candidate as recurrence exhaustion.
pub open spec fn spec_decision(cached: Option<int>, candidate: Option<int>) -> TickOutcome {
    match candidate {
        None => TickOutcome::Exhausted,
        Some(c) => match cached {
            None => TickOutcome::Primed,
            Some(u) => if u == c {
                TickOutcome::Held
            } else {
                TickOutcome::Fired
            },
        },
    }
}

/// The cache after a tick: the fresh candidate when there is one, the old
/// value untouched otherwise.
pub open spec fn spec_cache_after(cached: Option<int>, candidate: Option<int>) -> Option<int> {
    match candidate {
        Some(c) => Some(c),
        None => cached,
    }
}

/// The reminder after one detector tick at instant `now`: only the cached
/// occurrence may change.
pub open spec fn spec_tick(r: ReminderView, now: int) -> ReminderView {
    ReminderView { upcoming: spec_cache_after(r.upcoming, spec_candidate(r.schedule, now)), ..r }
}

/// The outcome of one detector tick at instant `now`.
pub open spec fn spec_tick_outcome(r: ReminderView, now: int) -> TickOutcome {
    spec_decision(r.upcoming, spec_candidate(r.schedule, now))
}

/// The reminder entity being scheduled. Position in the store is its only
/// identity; no identifier is stored on the reminder itself.
pub struct Reminder {
    pub summary: String,
    pub description: String,
    pub schedule: CronSchedule,
    /// Cached second-upcoming occurrence; absent until the first tick and
    /// never persisted.
    pub upcoming: Option<i64>,
}

impl View for Reminder {
    type V = ReminderView;

    open spec fn view(&self) -> ReminderView {
        ReminderView {
            summary: self.summary@,
            description: self.description@,
            schedule: self.schedule@,
            upcoming: match self.upcoming {
                Some(u) => Some(u as int),
                None => None,
            },
        }
    }
}

impl Reminder {
    /// A fresh reminder around an already parsed schedule: its cache is
    /// absent, so its first tick primes silently.
    pub fn new(summary: String, description: String, schedule: CronSchedule) -> (r: Reminder)
        ensures
            r@ == (ReminderView {
                summary: summary@,
                description: description@,
                schedule: schedule@,
                upcoming: None,
            }),
    {
        Reminder { summary, description, schedule, upcoming: None }
    }

    /// Parses the expression and builds a reminder around it; text the
    /// engine rejects yields a parse error and no reminder.
    pub fn create(summary: String, description: String, expr: &str) -> (r: Result<
        Reminder,
        ReminderError,
    >)
        ensures
            schedule_parses(expr@) ==> (r matches Ok(rem) && rem@ == (ReminderView {
                summary: summary@,
                description: description@,
                schedule: expr@,
                upcoming: None,
            })),
            !schedule_parses(expr@) ==> (r matches Err(e) && e == ReminderError::ScheduleParse),
    {
        match CronSchedule::parse(expr) {
            Ok(schedule) => Ok(Reminder::new(summary, description, schedule)),
            Err(e) => Err(e),
        }
    }

    /// One transition-detector tick at wall-clock instant `now`: recompute
    /// the second upcoming occurrence, prime an absent cache silently,
    /// fire exactly when the cached occurrence rolled over, and report
    /// exhaustion, untouched, when the engine yields nothing.
    pub fn tick(&mut self, now: i64) -> (outcome: TickOutcome)
        requires
            0 <= now < MAX_INSTANT,
        ensures
            final(self)@ == spec_tick(old(self)@, now as int),
            outcome == spec_tick_outcome(old(self)@, now as int),
    {
        let candidate = self.schedule.second_after(now);
        match candidate {
            None => TickOutcome::Exhausted,
            Some(c) => match self.upcoming {
                None => {
                    self.upcoming = Some(c);
                    TickOutcome::Primed
                },
                Some(u) => {
                    if u == c {
                        TickOutcome::Held
                    } else {
                        self.upcoming = Some(c);
                        TickOutcome::Fired
                    }
                },
            },
        }
    }
}

/// Priming: a tick of a reminder with no cached occurrence, at an instant
/// where the engine yields a candidate, caches some instant and does not
/// fire.
pub proof fn lemma_priming(r: ReminderView, now: int)
    requires
        r.upcoming is None,
        spec_candidate(r.schedule, now) is Some,
    ensures
        spec_tick_outcome(r, now) == TickOutcome::Primed,
        spec_tick(r, now).upcoming is Some,
{
}

/// No spurious fire: a second tick whose candidate equals the first
/// tick's (no wall-clock time elapsed, or too little to cross an
/// occurrence boundary) does not fire and leaves the reminder unchanged.
pub proof fn lemma_no_spurious_fire(r: ReminderView, now1: int, now2: int)
    requires
        spec_candidate(r.schedule, now2) == spec_candidate(r.schedule, now1),
    ensures
        spec_tick_outcome(spec_tick(r, now1), now2) != TickOutcome::Fired,
        spec_tick(spec_tick(r, now1), now2) == spec_tick(r, now1),
{
}

/// The reminder after ticking once at each instant of `nows`, in order.
pub open spec fn run_ticks(r: ReminderView, nows: Seq<int>) -> ReminderView
    decreases nows.len(),
{
    if nows.len() == 0 {
        r
    } else {
        run_ticks(spec_tick(r, nows[0]), nows.drop_first())
    }
}

/// How many of the ticks at the instants of `nows`, in order, fire.
pub open spec fn count_fires(r: ReminderView, nows: Seq<int>) -> nat
    decreases nows.len(),
{
    if nows.len() == 0 {
        0
    } else {
        (if spec_tick_outcome(r, nows[0]) == TickOutcome::Fired {
            1nat
        } else {
            0nat
        }) + count_fires(spec_tick(r, nows[0]), nows.drop_first())
    }
}

/// While every tick's candidate equals the cached occurrence, nothing
/// fires and nothing changes.
pub proof fn lemma_steady_ticks(r: ReminderView, nows: Seq<int>, c: int)
    requires
        r.upcoming == Some(c),
        forall|i: int| 0 <= i < nows.len() ==> spec_candidate(r.schedule, #[trigger] nows[i])
            == Some(c),
    ensures
        count_fires(r, nows) == 0,
        run_ticks(r, nows) == r,
    decreases nows.len(),
{
    if nows.len() > 0 {
        assert(spec_tick(r, nows[0]) =~= r);
        assert(forall|i: int| 0 <= i < nows.drop_first().len() ==> #[trigger] nows.drop_first()[i]
            == nows[i + 1]);
        lemma_steady_ticks(r, nows.drop_first(), c);
    }
}

/// Exactly once per boundary: starting from a cached occurrence, a run of
/// ticks whose candidate is the cached value up to some point and a single
/// different value from that point on fires exactly once, and leaves the
/// new value cached.
pub proof fn lemma_exactly_once_per_boundary(
    r: ReminderView,
    nows: Seq<int>,
    k: int,
    c0: int,
    c1: int,
)
    requires
        r.upcoming == Some(c0),
        0 <= k < nows.len(),
        forall|i: int| 0 <= i < k ==> spec_candidate(r.schedule, #[trigger] nows[i]) == Some(c0),
        forall|i: int| k <= i < nows.len() ==> spec_candidate(r.schedule, #[trigger] nows[i])
            == Some(c1),
        c0 != c1,
    ensures
        count_fires(r, nows) == 1,
        run_ticks(r, nows).upcoming == Some(c1),
    decreases k,
{
    assert(forall|i: int| 0 <= i < nows.drop_first().len() ==> #[trigger] nows.drop_first()[i]
        == nows[i + 1]);
    if k == 0 {
        let r1 = spec_tick(r, nows[0]);
        assert(spec_tick_outcome(r, nows[0]) == TickOutcome::Fired);
        assert(r1.upcoming == Some(c1));
        assert(r1.schedule == r.schedule);
        lemma_steady_ticks(r1, nows.drop_first(), c1);
    } else {
        assert(spec_tick_outcome(r, nows[0]) == TickOutcome::Held);
        assert(spec_tick(r, nows[0]) =~= r);
        lemma_exactly_once_per_boundary(r, nows.drop_first(), k - 1, c0, c1);
    }
}

} // verus!
