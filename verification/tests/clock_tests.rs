use bronzeflow::schedule_expr::ScheduleExpr;
use bronzeflow::schedule_time::{ScheduleTime, ScheduleTimeHolder, ScheduleTimeOp};
use bronzeflow::BronzeError;
use std::str::FromStr;

// A midnight, long after the epoch: 1970-01-01 plus 19000 days.
const MIDNIGHT: i64 = 19000 * 86400;

#[test]
fn test_time_holder() {
    let expr = ScheduleExpr::from_str("@daily").unwrap();

    let mut s = ScheduleTimeHolder::new(expr);
    s.init().unwrap()
}

#[test]
fn first_fire_is_earliest_occurrence() {
    // A daily rule initialized exactly at midnight: the earliest occurrence
    // strictly after it is the next midnight.
    let expr = ScheduleExpr::parse("0 0 0 * * * *").unwrap();
    let mut clock = ScheduleTimeHolder::new(expr);
    clock.init_at(ScheduleTime::new(MIDNIGHT)).unwrap();
    assert_eq!(clock.next_run().unwrap().secs(), MIDNIGHT + 86400);
    assert_eq!(clock.min_interval(), Some(86400));
    assert_eq!(clock.last_run(), None);
}

#[test]
fn per_second_rule_interval_floor() {
    let expr = ScheduleExpr::parse("1/1 * * * * *").unwrap();
    let mut clock = ScheduleTimeHolder::new(expr);
    clock.init_at(ScheduleTime::new(MIDNIGHT)).unwrap();
    assert_eq!(clock.next_run().unwrap().secs(), MIDNIGHT + 1);
    assert_eq!(clock.min_interval(), Some(1));
}

#[test]
fn daily_preset_fires_within_a_day() {
    // Given "@daily", initialization yields a next-fire within 24h of "now"
    // and a non-nil interval floor.
    let expr = ScheduleExpr::parse("@daily").unwrap();
    let mut clock = ScheduleTimeHolder::new(expr);
    let now = ScheduleTime::from_now();
    clock.init_at(now).unwrap();
    let next = clock.next_run().unwrap().secs();
    assert!(next > now.secs());
    assert!(next - now.secs() <= 86400);
    assert!(clock.min_interval().is_some());
}

#[test]
fn init_rejects_presets() {
    let expr = ScheduleExpr::parse("@none").unwrap();
    let mut clock = ScheduleTimeHolder::new(expr);
    assert_eq!(
        clock.init_at(ScheduleTime::new(MIDNIGHT)),
        Err(BronzeError::NotCron)
    );
    assert_eq!(clock.next_run(), None);
}

#[test]
fn init_rejects_exhausted_rules() {
    // A rule pinned to a single past year has no future occurrences.
    let expr = ScheduleExpr::parse("0 0 0 1 1 * 1971").unwrap();
    let mut clock = ScheduleTimeHolder::new(expr);
    assert_eq!(
        clock.init_at(ScheduleTime::new(MIDNIGHT)),
        Err(BronzeError::ScheduleExhausted)
    );
}

#[test]
fn advance_fires_when_due() {
    let expr = ScheduleExpr::parse("0 0 0 * * * *").unwrap();
    let mut clock = ScheduleTimeHolder::new(expr);
    clock.init_at(ScheduleTime::new(MIDNIGHT)).unwrap();

    // Not due yet: no mutation, no fire.
    assert!(!clock.cmp_and_to_next(&ScheduleTime::new(MIDNIGHT + 100)));
    assert_eq!(clock.next_run().unwrap().secs(), MIDNIGHT + 86400);
    assert_eq!(clock.last_run(), None);

    // Due: the old next-fire becomes last-fired, the cursor moves on.
    assert!(clock.cmp_and_to_next(&ScheduleTime::new(MIDNIGHT + 86400)));
    assert_eq!(clock.last_run().unwrap().secs(), MIDNIGHT + 86400);
    assert_eq!(clock.next_run().unwrap().secs(), MIDNIGHT + 2 * 86400);
}

#[test]
fn advance_is_idempotent_per_tick() {
    let expr = ScheduleExpr::parse("0 0 0 * * * *").unwrap();
    let mut clock = ScheduleTimeHolder::new(expr);
    clock.init_at(ScheduleTime::new(MIDNIGHT)).unwrap();

    // A tick that does not fire leaves the clock unchanged, so the same tick
    // asked twice does not fire either.
    let now = ScheduleTime::new(MIDNIGHT + 5);
    assert!(!clock.cmp_and_to_next(&now));
    assert!(!clock.cmp_and_to_next(&now));

    // After a fire, the same tick does not fire again without a new due time.
    let due = ScheduleTime::new(MIDNIGHT + 86400);
    assert!(clock.cmp_and_to_next(&due));
    assert!(!clock.cmp_and_to_next(&due));
}

#[test]
fn set_cursor_times() {
    let expr = ScheduleExpr::parse("@daily").unwrap();
    let mut clock = ScheduleTimeHolder::new(expr);
    let t = ScheduleTime::new(42);
    clock.set_last_run(&t);
    clock.set_next_run(&t);
    assert_eq!(clock.last_run(), Some(t));
    assert_eq!(clock.next_run(), Some(t));
}

#[test]
fn uninitialized_clock_never_fires() {
    let expr = ScheduleExpr::parse("@daily").unwrap();
    let mut clock = ScheduleTimeHolder::new(expr);
    assert!(!clock.cmp_and_to_next(&ScheduleTime::new(MIDNIGHT)));
    assert_eq!(clock.next_run(), None);
}
