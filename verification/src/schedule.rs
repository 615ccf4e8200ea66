use vstd::prelude::*;

use crate::errors::ReminderError;

verus! {

/// Upper bound on the instants (seconds since the Unix epoch) the library
/// hands to the recurrence engine. The engine itself never yields an
/// occurrence past the year 2100, which lies far below this bound.
pub const MAX_INSTANT: i64 = 100_000_000_000;

/// Whether the recurrence engine accepts the expression. Which expressions
/// parse is a function of the expression text alone.
pub uninterp spec fn schedule_parses(expr: Seq<char>) -> bool;

/// The first occurrence of the schedule strictly after instant `t`, in
/// seconds since the Unix epoch (UTC), or `None` once the engine runs out
/// of matching instants. A function of the expression and `t` alone.
pub uninterp spec fn first_occurrence_after(expr: Seq<char>, t: int) -> Option<int>;

/// The occurrence after the one `first_occurrence_after` yields: since the
/// occurrences form a strictly ascending sequence, the second occurrence
/// after `t` is the first occurrence after the first one.
pub open spec fn second_occurrence_after(expr: Seq<char>, t: int) -> Option<int> {
    match first_occurrence_after(expr, t) {
        Some(u) => first_occurrence_after(expr, u),
        None => None,
    }
}

/// The transition detector's cache candidate for `expr` at instant `t`:
/// the second upcoming occurrence where the expression is a valid
/// schedule, nothing otherwise.
pub open spec fn spec_candidate(expr: Seq<char>, t: int) -> Option<int> {
    if schedule_parses(expr) {
        second_occurrence_after(expr, t)
    } else {
        None
    }
}

/// Relies on `cron::Schedule::from_str`: whether a schedule expression
/// parses depends on the expression text alone.
#[verifier::external_body]
fn parse_ok(expr: &str) -> (r: bool)
    ensures
        r == schedule_parses(expr@),
{
    <cron::Schedule as core::str::FromStr>::from_str(expr).is_ok()
}

/// Relies on `cron::Schedule::from_str` and `cron::Schedule::after`: in
/// UTC the occurrences of a schedule are a function of the expression and
/// the reference instant alone, each yielded instant lies strictly after
/// the reference, and the engine caps years at 2100, so every yielded
/// instant stays far below `MAX_INSTANT`. Timestamp conversion relies on
/// `chrono::DateTime::from_timestamp` and `chrono::DateTime::timestamp`.
#[verifier::external_body]
fn next_after(expr: &str, t: i64) -> (r: Option<i64>)
    requires
        0 <= t < MAX_INSTANT,
    ensures
        schedule_parses(expr@) ==> (match r {
            Some(u) => first_occurrence_after(expr@, t as int) == Some(u as int)
                && t < u < MAX_INSTANT,
            None => first_occurrence_after(expr@, t as int) is None,
        }),
        !schedule_parses(expr@) ==> r is None,
{
    let schedule = match <cron::Schedule as core::str::FromStr>::from_str(expr) {
        Ok(s) => s,
        Err(_) => return None,
    };
    let reference = match chrono::DateTime::<chrono::Utc>::from_timestamp(t, 0) {
        Some(d) => d,
        None => return None,
    };
    schedule.after(&reference).next().map(|d| d.timestamp())
}

/// Relies on `cron::Schedule::from_str` and `cron::Schedule::source`: a
/// parsed schedule keeps the exact expression text it was parsed from,
/// and rendering gives that text back verbatim.
#[verifier::external_body]
fn source_text(expr: &str) -> (r: String)
    ensures
        r@ == expr@,
{
    match <cron::Schedule as core::str::FromStr>::from_str(expr) {
        Ok(s) => s.source().to_string(),
        Err(_) => expr.to_string(),
    }
}

/// A recurrence rule, stored and round-tripped as the exact cron
/// expression text it was parsed from.
pub struct CronSchedule {
    expr: String,
}

impl View for CronSchedule {
    type V = Seq<char>;

    closed spec fn view(&self) -> Seq<char> {
        self.expr@
    }
}

impl CronSchedule {
    /// A well-formed schedule carries an expression the engine accepts.
    pub open spec fn wf(&self) -> bool {
        schedule_parses(self@)
    }

    /// Parses a cron expression; text the engine rejects yields a parse
    /// error, and exactly that text does.
    pub fn parse(expr: &str) -> (r: Result<CronSchedule, ReminderError>)
        ensures
            schedule_parses(expr@) ==> (r matches Ok(s) && s@ == expr@ && s.wf()),
            !schedule_parses(expr@) ==> (r matches Err(e) && e == ReminderError::ScheduleParse),
    {
        if parse_ok(expr) {
            Ok(CronSchedule { expr: expr.to_owned() })
        } else {
            Err(ReminderError::ScheduleParse)
        }
    }

    /// Renders the schedule back to its expression text, verbatim.
    pub fn render(&self) -> (r: String)
        ensures
            r@ == self@,
    {
        source_text(self.expr.as_str())
    }

    /// The second occurrence strictly after `now`: the value the
    /// transition detector caches and compares.
    pub fn second_after(&self, now: i64) -> (r: Option<i64>)
        requires
            0 <= now < MAX_INSTANT,
        ensures
            (match r {
                Some(u) => spec_candidate(self@, now as int) == Some(u as int)
                    && now < u < MAX_INSTANT,
                None => spec_candidate(self@, now as int) is None,
            }),
    {
        match next_after(self.expr.as_str(), now) {
            Some(u) => next_after(self.expr.as_str(), u),
            None => None,
        }
    }
}

/// Round trip: the rendered text of a well-formed schedule, which `render`
/// returns verbatim, parses again and describes the same occurrence
/// instants as the schedule it came from.
pub proof fn lemma_render_round_trip(s: &CronSchedule, rendered: Seq<char>)
    requires
        s.wf(),
        rendered == s@,
    ensures
        schedule_parses(rendered),
        forall|t: int| spec_candidate(rendered, t) == spec_candidate(s@, t),
{
}

} // verus!
