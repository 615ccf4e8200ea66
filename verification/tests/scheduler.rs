use oytr::errors::ReminderError;
use oytr::reminder::Reminder;
use oytr::reminder::TickOutcome;
use oytr::schedule::CronSchedule;
use oytr::store::ReminderStore;

// Schedule: 09:00 UTC every Monday (seconds, minutes, hours, day of month,
// month, day of week).
const MONDAY_NINE: &str = "0 0 9 * * Mon";
// Schedule: 14:30 UTC every day.
const DAILY_HALF_PAST_TWO: &str = "0 30 14 * * *";

// Instants in seconds since the Unix epoch, UTC.
const FRIDAY_NOON: i64 = 1703851200; // 2023-12-29 12:00:00, a Friday
const MONDAY_0859_59: i64 = 1704099599; // 2024-01-01 08:59:59
const MONDAY_TEN: i64 = 1704103200; // 2024-01-01 10:00:00
const FIRST_MONDAY_NINE: i64 = 1704099600; // 2024-01-01 09:00:00
const SECOND_MONDAY_NINE: i64 = 1704704400; // 2024-01-08 09:00:00
const THIRD_MONDAY_NINE: i64 = 1705309200; // 2024-01-15 09:00:00
const SATURDAY_1430: i64 = 1703946600; // 2023-12-30 14:30:00

fn monday_reminder() -> Reminder {
    Reminder::create(
        String::from("standup"),
        String::from("weekly standup meeting"),
        MONDAY_NINE,
    )
    .expect("expression parses")
}

fn daily_reminder() -> Reminder {
    Reminder::create(
        String::from("tea"),
        String::from("afternoon tea"),
        DAILY_HALF_PAST_TWO,
    )
    .expect("expression parses")
}

#[test]
fn second_after_skips_the_imminent_occurrence() {
    let schedule = CronSchedule::parse(MONDAY_NINE).expect("expression parses");
    // The first occurrence after Friday noon is the first Monday 09:00; the
    // cached candidate is the occurrence after that one.
    assert_eq!(schedule.second_after(FRIDAY_NOON), Some(SECOND_MONDAY_NINE));
    // Just after the first Monday's 09:00 the candidate rolls forward.
    assert_eq!(schedule.second_after(MONDAY_TEN), Some(THIRD_MONDAY_NINE));
    // The occurrence at exactly 09:00 is strictly after 08:59:59.
    assert_eq!(
        schedule.second_after(FIRST_MONDAY_NINE - 1),
        Some(SECOND_MONDAY_NINE)
    );
}

#[test]
fn priming_tick_caches_and_does_not_fire() {
    let mut reminder = monday_reminder();
    assert_eq!(reminder.upcoming, None);
    let outcome = reminder.tick(FRIDAY_NOON);
    assert_eq!(outcome, TickOutcome::Primed);
    assert_eq!(reminder.upcoming, Some(SECOND_MONDAY_NINE));
}

#[test]
fn no_spurious_fire_without_boundary() {
    let mut reminder = monday_reminder();
    reminder.tick(FRIDAY_NOON);
    let cached = reminder.upcoming;
    // No wall-clock time elapsed.
    assert_eq!(reminder.tick(FRIDAY_NOON), TickOutcome::Held);
    assert_eq!(reminder.upcoming, cached);
    // Time elapsed, but not enough to cross an occurrence boundary.
    assert_eq!(reminder.tick(MONDAY_0859_59), TickOutcome::Held);
    assert_eq!(reminder.upcoming, cached);
}

#[test]
fn exactly_one_fire_across_a_boundary() {
    let mut reminder = monday_reminder();
    assert_eq!(reminder.tick(FRIDAY_NOON), TickOutcome::Primed);
    // Sweep wall-clock time across the first Monday's 09:00 boundary.
    let sweep = [
        FRIDAY_NOON + 1,
        MONDAY_0859_59,
        MONDAY_TEN,
        MONDAY_TEN + 1,
        MONDAY_TEN + 2,
    ];
    let mut fires: usize = 0;
    for now in sweep {
        if reminder.tick(now) == TickOutcome::Fired {
            fires += 1;
        }
    }
    assert_eq!(fires, 1);
}

#[test]
fn monday_boundary_scenario() {
    // Prime on a Friday: the candidate is the second Monday 09:00, because
    // the first Monday's occurrence is the imminent one being skipped.
    let mut reminder = monday_reminder();
    assert_eq!(reminder.tick(FRIDAY_NOON), TickOutcome::Primed);
    assert_eq!(reminder.upcoming, Some(SECOND_MONDAY_NINE));
    // Just after the first Monday's 09:00 has passed, the recomputed
    // candidate differs from the cache: exactly one notification fires and
    // the cache rolls forward.
    assert_eq!(reminder.tick(MONDAY_TEN), TickOutcome::Fired);
    assert_eq!(reminder.upcoming, Some(THIRD_MONDAY_NINE));
    // And it fires only once for that boundary.
    assert_eq!(reminder.tick(MONDAY_TEN + 1), TickOutcome::Held);
}

#[test]
fn reminders_do_not_influence_each_other() {
    // Tick the same two reminders alone and together, in both store orders:
    // each position's outcome and cache depend on its own schedule alone.
    let mut alone_monday = monday_reminder();
    let mut alone_daily = daily_reminder();
    let o_monday = alone_monday.tick(FRIDAY_NOON);
    let o_daily = alone_daily.tick(FRIDAY_NOON);

    let mut store = ReminderStore::new();
    store.add(monday_reminder());
    store.add(daily_reminder());
    let outcomes = store.tick_all(FRIDAY_NOON);
    assert_eq!(outcomes, vec![o_monday, o_daily]);
    assert_eq!(store.get(0).upcoming, alone_monday.upcoming);
    assert_eq!(store.get(1).upcoming, alone_daily.upcoming);

    let mut reversed = ReminderStore::new();
    reversed.add(daily_reminder());
    reversed.add(monday_reminder());
    let outcomes_reversed = reversed.tick_all(FRIDAY_NOON);
    assert_eq!(outcomes_reversed, vec![o_daily, o_monday]);
    assert_eq!(reversed.get(0).upcoming, alone_daily.upcoming);
    assert_eq!(reversed.get(1).upcoming, alone_monday.upcoming);

    // The daily schedule caches the day-after-next occurrence.
    assert_eq!(alone_daily.upcoming, Some(SATURDAY_1430));
}

#[test]
fn render_round_trips_the_expression() {
    let schedule = CronSchedule::parse(MONDAY_NINE).expect("expression parses");
    let rendered = schedule.render();
    assert_eq!(rendered, MONDAY_NINE);
    // The re-parsed rendering describes the same occurrence instants.
    let reparsed = CronSchedule::parse(&rendered).expect("rendering parses");
    for now in [FRIDAY_NOON, MONDAY_0859_59, MONDAY_TEN, THIRD_MONDAY_NINE] {
        assert_eq!(reparsed.second_after(now), schedule.second_after(now));
    }
}

#[test]
fn rejected_expression_gives_parse_error() {
    assert!(matches!(
        CronSchedule::parse("every other tuesday"),
        Err(ReminderError::ScheduleParse)
    ));
    assert!(matches!(
        Reminder::create(String::from("a"), String::from("b"), "61 * * * * *"),
        Err(ReminderError::ScheduleParse)
    ));
}

#[test]
fn removal_reindexes_later_positions() {
    let mut store = ReminderStore::new();
    for name in ["first", "second", "third"] {
        store.add(
            Reminder::create(String::from(name), String::from("d"), MONDAY_NINE)
                .expect("expression parses"),
        );
    }
    let removed = store.remove(1).expect("index 1 is occupied");
    assert_eq!(removed.summary, "second");
    let entries = store.list();
    assert_eq!(entries.len(), 2);
    assert_eq!(entries[0].id, 0);
    assert_eq!(entries[0].summary, "first");
    // The former position-2 reminder is now addressable at position 1.
    assert_eq!(entries[1].id, 1);
    assert_eq!(entries[1].summary, "third");
    assert_eq!(entries[1].schedule, MONDAY_NINE);
}

#[test]
fn remove_out_of_range_is_an_error_and_changes_nothing() {
    let mut store = ReminderStore::new();
    assert!(matches!(
        store.remove(0),
        Err(ReminderError::IndexOutOfRange)
    ));
    assert_eq!(store.len(), 0);
    store.add(monday_reminder());
    assert!(matches!(
        store.remove(1),
        Err(ReminderError::IndexOutOfRange)
    ));
    assert_eq!(store.len(), 1);
    assert_eq!(store.get(0).summary, "standup");
}

#[test]
fn exhausted_schedule_reports_and_leaves_cache_alone() {
    // A schedule confined to a year already past yields no occurrence.
    let mut reminder = Reminder::create(
        String::from("past"),
        String::from("never again"),
        "0 0 9 1 1 * 2020",
    )
    .expect("expression parses");
    assert_eq!(reminder.tick(FRIDAY_NOON), TickOutcome::Exhausted);
    assert_eq!(reminder.upcoming, None);
}

#[test]
fn listing_assigns_positional_identifiers() {
    let mut store = ReminderStore::new();
    store.add(monday_reminder());
    store.add(daily_reminder());
    let entries = store.list();
    assert_eq!(entries.len(), 2);
    assert_eq!(entries[0].id, 0);
    assert_eq!(entries[0].summary, "standup");
    assert_eq!(entries[0].description, "weekly standup meeting");
    assert_eq!(entries[0].schedule, MONDAY_NINE);
    assert_eq!(entries[1].id, 1);
    assert_eq!(entries[1].summary, "tea");
    assert_eq!(entries[1].schedule, DAILY_HALF_PAST_TWO);
}
