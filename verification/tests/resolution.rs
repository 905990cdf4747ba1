use mensa_bot::commands::{dispatch_command, parse_day_argument, resolve_request};
use mensa_bot::date::{Date, Time};
use mensa_bot::menu::{date_from_raw, plans_from_raw, ApiResult, MenuSourceError, RawDate};
use mensa_bot::resolver::{resolve, DayCorrection};

fn d(year: u32, month: u32, day: u32) -> Date {
    Date { year, month, day }
}

fn t(hour: u32, minute: u32) -> Time {
    Time { hour, minute }
}

// A Wednesday, as in the bot's own calendar and the real one.
const NOW_Y: u32 = 2024;

#[test]
fn parse_relative_tokens() {
    let now = d(NOW_Y, 1, 3);
    assert_eq!(parse_day_argument("today", now).unwrap(), now);
    assert_eq!(parse_day_argument("tomorrow", now).unwrap(), d(NOW_Y, 1, 4));
    assert_eq!(parse_day_argument("dayaftertomorrow", now).unwrap(), d(NOW_Y, 1, 5));
}

#[test]
fn parse_weekday_looks_forward() {
    // Wednesday the 3rd: Friday is two days ahead, Monday wraps to the 8th.
    let now = d(NOW_Y, 1, 3);
    assert_eq!(parse_day_argument("friday", now).unwrap(), d(NOW_Y, 1, 5));
    assert_eq!(parse_day_argument("monday", now).unwrap(), d(NOW_Y, 1, 8));
    assert_eq!(parse_day_argument("wednesday", now).unwrap(), now);
}

#[test]
fn parse_weekday_on_that_weekday_is_today() {
    // Monday the 1st of January 2024.
    let monday = d(NOW_Y, 1, 1);
    assert_eq!(parse_day_argument("monday", monday).unwrap(), monday);
}

#[test]
fn parse_weekday_from_following_day_waits_a_week() {
    // Tuesday the 2nd: the next Monday is six days later.
    let tuesday = d(NOW_Y, 1, 2);
    assert_eq!(parse_day_argument("monday", tuesday).unwrap(), d(NOW_Y, 1, 8));
}

#[test]
fn parse_rejects_unknown_token() {
    let now = d(NOW_Y, 1, 3);
    let err = parse_day_argument("yesterday", now).unwrap_err();
    assert_eq!(err.arg, "yesterday");
}

#[test]
fn resolve_empty_availability_gives_nothing() {
    let now = d(NOW_Y, 1, 3);
    let avail: Vec<Date> = Vec::new();
    let (sel, _) = resolve(Some(d(NOW_Y, 1, 5)), now, t(10, 0), t(20, 0), &avail);
    assert_eq!(sel, None);
    let (sel2, _) = resolve(None, now, t(23, 0), t(20, 0), &avail);
    assert_eq!(sel2, None);
}

#[test]
fn resolve_exact_request_needs_no_correction() {
    let now = d(NOW_Y, 1, 3);
    let avail = vec![d(NOW_Y, 1, 5)];
    let r = resolve(Some(d(NOW_Y, 1, 5)), now, t(10, 0), t(20, 0), &avail);
    assert_eq!(r, (Some(d(NOW_Y, 1, 5)), DayCorrection::Same));
}

#[test]
fn resolve_skips_to_next_available_day() {
    let now = d(NOW_Y, 1, 3);
    let avail = vec![d(NOW_Y, 1, 8)];
    let r = resolve(Some(d(NOW_Y, 1, 5)), now, t(10, 0), t(20, 0), &avail);
    assert_eq!(r, (Some(d(NOW_Y, 1, 8)), DayCorrection::DaysSkipped));
}

#[test]
fn resolve_rolls_over_past_cutoff() {
    let now = d(NOW_Y, 1, 3);
    let avail = vec![d(NOW_Y, 1, 4)];
    let r = resolve(None, now, t(23, 0), t(20, 0), &avail);
    assert_eq!(r, (Some(d(NOW_Y, 1, 4)), DayCorrection::RollOver));
}

#[test]
fn resolve_exactly_at_cutoff_does_not_roll_over() {
    let now = d(NOW_Y, 1, 3);
    let avail = vec![d(NOW_Y, 1, 3)];
    let r = resolve(None, now, t(20, 0), t(20, 0), &avail);
    assert_eq!(r, (Some(d(NOW_Y, 1, 3)), DayCorrection::Same));
}

#[test]
fn resolve_roll_over_takes_precedence_over_skip() {
    // Past cutoff and the next day closed: the date skips further, but the
    // reported correction stays the roll-over.
    let now = d(NOW_Y, 1, 3);
    let avail = vec![d(NOW_Y, 1, 8)];
    let r = resolve(None, now, t(23, 0), t(20, 0), &avail);
    assert_eq!(r, (Some(d(NOW_Y, 1, 8)), DayCorrection::RollOver));
}

#[test]
fn resolve_picks_smallest_matching_day_unsorted() {
    let now = d(NOW_Y, 1, 3);
    let avail = vec![d(NOW_Y, 1, 9), d(NOW_Y, 1, 4), d(NOW_Y, 1, 8)];
    let r = resolve(Some(d(NOW_Y, 1, 4)), now, t(10, 0), t(20, 0), &avail);
    assert_eq!(r, (Some(d(NOW_Y, 1, 4)), DayCorrection::Same));
    let r2 = resolve(Some(d(NOW_Y, 1, 5)), now, t(10, 0), t(20, 0), &avail);
    assert_eq!(r2, (Some(d(NOW_Y, 1, 8)), DayCorrection::DaysSkipped));
}

#[test]
fn resolve_ignores_days_before_baseline() {
    let now = d(NOW_Y, 1, 3);
    let avail = vec![d(NOW_Y, 1, 1), d(NOW_Y, 1, 2)];
    let r = resolve(Some(d(NOW_Y, 1, 3)), now, t(10, 0), t(20, 0), &avail);
    assert_eq!(r.0, None);
}

#[test]
fn resolve_request_parses_and_resolves() {
    let now = d(NOW_Y, 1, 3);
    let avail = vec![d(NOW_Y, 1, 5), d(NOW_Y, 1, 8)];
    let r = resolve_request(Some("friday"), now, t(10, 0), t(20, 0), &avail).unwrap();
    assert_eq!(r, (Some(d(NOW_Y, 1, 5)), DayCorrection::Same));
}

#[test]
fn resolve_request_rejects_bad_token_before_resolving() {
    let now = d(NOW_Y, 1, 3);
    let avail = vec![d(NOW_Y, 1, 5)];
    let err = resolve_request(Some("never"), now, t(10, 0), t(20, 0), &avail).unwrap_err();
    assert_eq!(err.arg, "never");
}

#[test]
fn dispatch_accepts_only_the_menu_command() {
    assert!(dispatch_command("mensa").is_ok());
    let err = dispatch_command("ping").unwrap_err();
    assert_eq!(err.name, "ping");
}

#[test]
fn raw_date_conversion_shifts_month() {
    let raw = RawDate { day: 5, month: 0, year: 2024 };
    assert_eq!(date_from_raw(&raw).unwrap(), d(2024, 1, 5));
}

#[test]
fn raw_date_conversion_rejects_impossible_dates() {
    assert_eq!(
        date_from_raw(&RawDate { day: 30, month: 1, year: 2023 }),
        Err(MenuSourceError::MalformedResponse)
    );
    assert_eq!(
        date_from_raw(&RawDate { day: 31, month: 3, year: 2024 }),
        Err(MenuSourceError::MalformedResponse)
    );
    assert_eq!(
        date_from_raw(&RawDate { day: 1, month: 12, year: 2024 }),
        Err(MenuSourceError::MalformedResponse)
    );
    assert_eq!(
        date_from_raw(&RawDate { day: 1, month: 0, year: 0 }),
        Err(MenuSourceError::MalformedResponse)
    );
}

#[test]
fn api_envelope_carries_its_payload() {
    let envelope = ApiResult { success: true, data: vec![RawDate { day: 5, month: 0, year: 2024 }] };
    assert!(envelope.success);
    assert_eq!(plans_from_raw(&envelope.data).unwrap(), vec![d(2024, 1, 5)]);
}

#[test]
fn plan_list_conversion() {
    let raw = vec![
        RawDate { day: 5, month: 0, year: 2024 },
        RawDate { day: 8, month: 0, year: 2024 },
    ];
    assert_eq!(plans_from_raw(&raw).unwrap(), vec![d(2024, 1, 5), d(2024, 1, 8)]);

    let bad = vec![
        RawDate { day: 5, month: 0, year: 2024 },
        RawDate { day: 31, month: 1, year: 2024 },
    ];
    assert_eq!(plans_from_raw(&bad), Err(MenuSourceError::MalformedResponse));
}
