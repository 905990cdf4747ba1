//! The chat command surface: recognizing the command and its day argument,
//! turning a day token into a concrete date, and resolving one menu request
//! end to end once the available days are known.

use vstd::prelude::*;
use vstd::string::*;

use crate::date::{day_num, days_in_month, weekday_index, weekday_of, Date, Time, Weekday};
use crate::resolver::{resolve, DayCorrection};

verus! {

/// The command dispatch received a name it has no handler for.
#[derive(Debug, Clone, PartialEq, Eq)]
pub struct UnknownCommandError {
    pub name: String,
}

/// The day argument was none of the recognized tokens.
#[derive(Debug, Clone, PartialEq, Eq)]
pub struct InvalidDayArgumentError {
    pub arg: String,
}

/// The recognized day tokens of the command's `tag` argument; an absent
/// argument means "today, roll-over adjusted" and has no token.
#[derive(Clone, Copy, Debug, PartialEq, Eq, Structural)]
pub enum DayToken {
    Today,
    Tomorrow,
    DayAfterTomorrow,
    Monday,
    Tuesday,
    Wednesday,
    Thursday,
    Friday,
}

/// The token a day argument string denotes, if any.
pub open spec fn token_of(s: Seq<char>) -> Option<DayToken> {
    if s == "today"@ {
        Some(DayToken::Today)
    } else if s == "tomorrow"@ {
        Some(DayToken::Tomorrow)
    } else if s == "dayaftertomorrow"@ {
        Some(DayToken::DayAfterTomorrow)
    } else if s == "monday"@ {
        Some(DayToken::Monday)
    } else if s == "tuesday"@ {
        Some(DayToken::Tuesday)
    } else if s == "wednesday"@ {
        Some(DayToken::Wednesday)
    } else if s == "thursday"@ {
        Some(DayToken::Thursday)
    } else if s == "friday"@ {
        Some(DayToken::Friday)
    } else {
        None
    }
}

/// How many days ahead of today the next occurrence of `target` lies;
/// zero when today already is that weekday.
pub open spec fn days_until_weekday(now: Date, target: Weekday) -> int {
    (weekday_index(target) + 7 - weekday_index(weekday_of(now))) % 7
}

/// The weekday a token names, for the weekday tokens.
pub open spec fn token_weekday(t: DayToken) -> Option<Weekday> {
    match t {
        DayToken::Monday => Some(Weekday::Monday),
        DayToken::Tuesday => Some(Weekday::Tuesday),
        DayToken::Wednesday => Some(Weekday::Wednesday),
        DayToken::Thursday => Some(Weekday::Thursday),
        DayToken::Friday => Some(Weekday::Friday),
        DayToken::Today | DayToken::Tomorrow | DayToken::DayAfterTomorrow => None,
    }
}

/// How many days ahead of today the date named by a token lies.
pub open spec fn token_offset(t: DayToken, now: Date) -> int {
    match t {
        DayToken::Today => 0,
        DayToken::Tomorrow => 1,
        DayToken::DayAfterTomorrow => 2,
        DayToken::Monday => days_until_weekday(now, Weekday::Monday),
        DayToken::Tuesday => days_until_weekday(now, Weekday::Tuesday),
        DayToken::Wednesday => days_until_weekday(now, Weekday::Wednesday),
        DayToken::Thursday => days_until_weekday(now, Weekday::Thursday),
        DayToken::Friday => days_until_weekday(now, Weekday::Friday),
    }
}

fn str_eq(a: &str, b: &str) -> (r: bool)
    ensures
        r == (a@ == b@),
{
    let sa = String::from_str(a);
    let sb = String::from_str(b);
    sa == sb
}

fn weekday_index_of(w: Weekday) -> (r: u64)
    ensures
        r == weekday_index(w),
{
    match w {
        Weekday::Monday => 0,
        Weekday::Tuesday => 1,
        Weekday::Wednesday => 2,
        Weekday::Thursday => 3,
        Weekday::Friday => 4,
        Weekday::Saturday => 5,
        Weekday::Sunday => 6,
    }
}

/// The next date on or after today that falls on the given weekday;
/// today itself when today already is that weekday.
pub fn next_weekday(weekday: Weekday, now: &Date) -> (r: Date)
    requires
        now.valid(),
        now.year < 9999,
    ensures
        r.valid(),
        day_num(r) == day_num(*now) + days_until_weekday(*now, weekday),
        day_num(*now) <= day_num(r) < day_num(*now) + 7,
        weekday_of(r) == weekday,
{
    let target = weekday_index_of(weekday);
    let current = weekday_index_of(now.weekday());
    let days_to_add = (target + 7 - current) % 7;
    let r = now.plus_days(days_to_add);
    proof {
        crate::date::lemma_days_before_year_increasing(1, now.year as int);
        crate::date::lemma_day_num_in_year(*now);
        lemma_weekday_of_offset(*now, weekday);
    }
    r
}

/// Stepping forward by the weekday distance lands on the target weekday.
proof fn lemma_weekday_of_offset(now: Date, target: Weekday)
    requires
        day_num(now) >= 0,
    ensures
        (day_num(now) + days_until_weekday(now, target)) % 7 == weekday_index(target),
{
    let n = day_num(now);
    let ti = weekday_index(target);
    let ci = weekday_index(weekday_of(now));
    assert(ci == n % 7);
    let off = (ti + 7 - ci) % 7;
    assert(0 <= n % 7 < 7) by (nonlinear_arith)
        requires n >= 0;
    if ti >= ci {
        assert(off == ti - ci);
    } else {
        assert(off == ti + 7 - ci);
    }
    assert((n + off) % 7 == ti) by (nonlinear_arith)
        requires
            n >= 0,
            ci == n % 7,
            0 <= ci < 7,
            0 <= ti < 7,
            off == if ti >= ci {
                ti - ci
            } else {
                ti + 7 - ci
            },
    ;
}

/// Turn a day argument into a concrete date, relative to the current date:
/// "today" and its neighbours are fixed offsets, a weekday name is the next
/// occurrence of that weekday (today included), anything else is rejected.
pub fn parse_day_argument(arg: &str, now: Date) -> (r: Result<Date, InvalidDayArgumentError>)
    requires
        now.valid(),
        now.year < 9999,
    ensures
        match token_of(arg@) {
            Some(t) => r matches Ok(d) && d.valid() && day_num(d) == day_num(now) + token_offset(
                t,
                now,
            ) && (token_weekday(t) matches Some(w) ==> weekday_of(d) == w && token_offset(t, now)
                < 7),
            None => r matches Err(e) && e.arg@ == arg@,
        },
{
    if str_eq(arg, "today") {
        Ok(now)
    } else if str_eq(arg, "tomorrow") {
        Ok(now.plus_days(1))
    } else if str_eq(arg, "dayaftertomorrow") {
        Ok(now.plus_days(2))
    } else if str_eq(arg, "monday") {
        Ok(next_weekday(Weekday::Monday, &now))
    } else if str_eq(arg, "tuesday") {
        Ok(next_weekday(Weekday::Tuesday, &now))
    } else if str_eq(arg, "wednesday") {
        Ok(next_weekday(Weekday::Wednesday, &now))
    } else if str_eq(arg, "thursday") {
        Ok(next_weekday(Weekday::Thursday, &now))
    } else if str_eq(arg, "friday") {
        Ok(next_weekday(Weekday::Friday, &now))
    } else {
        Err(InvalidDayArgumentError { arg: String::from_str(arg) })
    }
}

/// Relative tokens name a fixed distance from the current date: the
/// distance is the same whatever date — and so whatever weekday — it is.
pub proof fn lemma_relative_tokens_ignore_weekday(t: DayToken, now1: Date, now2: Date)
    requires
        t == DayToken::Today || t == DayToken::Tomorrow || t == DayToken::DayAfterTomorrow,
    ensures
        token_offset(t, now1) == token_offset(t, now2),
{
}

/// Asking for a weekday on that very weekday means no lookahead at all.
pub proof fn lemma_weekday_zero_lookahead(now: Date)
    ensures
        days_until_weekday(now, weekday_of(now)) == 0,
{
}

/// Accept exactly the one command this bot answers.
pub fn dispatch_command(name: &str) -> (r: Result<(), UnknownCommandError>)
    ensures
        r is Ok <==> name@ == "mensa"@,
        r matches Err(e) ==> e.name@ == name@,
{
    if str_eq(name, "mensa") {
        Ok(())
    } else {
        Err(UnknownCommandError { name: String::from_str(name) })
    }
}

/// Resolve one menu request: parse the day argument when one was given,
/// otherwise start from today adjusted by the roll-over rule, then pick
/// the first available day on or after that baseline.
pub fn resolve_request(
    tag: Option<&str>,
    now_date: Date,
    now_time: Time,
    roll_over: Time,
    available: &Vec<Date>,
) -> (r: Result<(Option<Date>, DayCorrection), InvalidDayArgumentError>)
    requires
        now_date.valid(),
        now_date.year < 9999,
        forall|i: int| 0 <= i < available@.len() ==> (#[trigger] available@[i]).valid(),
    ensures
        match tag {
            Some(a) => match token_of(a@) {
                Some(t) => r matches Ok(res) && res == crate::resolver::resolve_from(
                    day_num(now_date) + token_offset(t, now_date),
                    DayCorrection::Same,
                    available@,
                ),
                None => r matches Err(e) && e.arg@ == a@,
            },
            None => r == Ok::<_, InvalidDayArgumentError>(
                crate::resolver::resolve_spec(
                    None,
                    now_date,
                    now_time,
                    roll_over,
                    available@,
                ),
            ),
        },
        r matches Ok(res) ==> (res.0 matches Some(d) ==> d.valid()),
{
    match tag {
        Some(a) => {
            match parse_day_argument(a, now_date) {
                Ok(requested) => Ok(
                    resolve(Some(requested), now_date, now_time, roll_over, available),
                ),
                Err(e) => Err(e),
            }
        },
        None => Ok(resolve(None, now_date, now_time, roll_over, available)),
    }
}

/// The day choices offered on the command's `tag` argument, as label and
/// wire value; every wire value is a token the parser recognizes.
pub fn day_choices() -> (r: Vec<(&'static str, &'static str)>)
    ensures
        r@.len() == 8,
        forall|i: int| 0 <= i < r@.len() ==> token_of((#[trigger] r@[i]).1@) is Some,
        r@[0].0@ == "Heute"@ && r@[0].1@ == "today"@,
        r@[1].0@ == "Morgen"@ && r@[1].1@ == "tomorrow"@,
        r@[2].0@ == "Übermorgen"@ && r@[2].1@ == "dayaftertomorrow"@,
        r@[3].0@ == "Montag"@ && r@[3].1@ == "monday"@,
        r@[4].0@ == "Dienstag"@ && r@[4].1@ == "tuesday"@,
        r@[5].0@ == "Mittwoch"@ && r@[5].1@ == "wednesday"@,
        r@[6].0@ == "Donnerstag"@ && r@[6].1@ == "thursday"@,
        r@[7].0@ == "Freitag"@ && r@[7].1@ == "friday"@,
{
    let mut v: Vec<(&'static str, &'static str)> = Vec::new();
    v.push(("Heute", "today"));
    v.push(("Morgen", "tomorrow"));
    v.push(("Übermorgen", "dayaftertomorrow"));
    v.push(("Montag", "monday"));
    v.push(("Dienstag", "tuesday"));
    v.push(("Mittwoch", "wednesday"));
    v.push(("Donnerstag", "thursday"));
    v.push(("Freitag", "friday"));
    v
}

/// The canteen choices offered on the command's `kantine` argument, as
/// label and canteen identifier.
pub fn canteen_choices() -> (r: Vec<(&'static str, &'static str)>)
    ensures
        r@.len() == 7,
        r@[0].0@ == "KIT Campus"@ && r@[0].1@ == "mensa_adenauerring"@,
        r@[1].0@ == "Gottesaue"@ && r@[1].1@ == "mensa_gottesaue"@,
        r@[2].0@ == "Moltke"@ && r@[2].1@ == "mensa_moltke"@,
        r@[3].0@ == "Moltke 30"@ && r@[3].1@ == "mensa_x1moltkestrasse"@,
        r@[4].0@ == "Erzberger"@ && r@[4].1@ == "mensa_erzberger"@,
        r@[5].0@ == "Tiefbronner"@ && r@[5].1@ == "mensa_tiefenbronner"@,
        r@[6].0@ == "Holzgarten"@ && r@[6].1@ == "mensa_holzgarten"@,
{
    let mut v: Vec<(&'static str, &'static str)> = Vec::new();
    v.push(("KIT Campus", "mensa_adenauerring"));
    v.push(("Gottesaue", "mensa_gottesaue"));
    v.push(("Moltke", "mensa_moltke"));
    v.push(("Moltke 30", "mensa_x1moltkestrasse"));
    v.push(("Erzberger", "mensa_erzberger"));
    v.push(("Tiefbronner", "mensa_tiefenbronner"));
    v.push(("Holzgarten", "mensa_holzgarten"));
    v
}

/// Relies on chrono::Local::now for the current local wall-clock instant,
/// handed back as plain year, month, day, hour and minute values with
/// chrono's documented ranges. chrono itself panics when the host clock
/// reads before the Unix epoch or outside its representable years; a sane
/// host clock is assumed here.
#[verifier::external_body]
fn now_local_raw() -> (r: (i32, u32, u32, u32, u32))
    ensures
        1 <= r.1 <= 12,
        1 <= r.2 <= 31,
        r.3 < 24,
        r.4 < 60,
{
    let now = chrono::Local::now().naive_local();
    (
        chrono::Datelike::year(&now),
        chrono::Datelike::month(&now),
        chrono::Datelike::day(&now),
        chrono::Timelike::hour(&now),
        chrono::Timelike::minute(&now),
    )
}

/// Fix a raw clock reading in the calendar model: accepted exactly when
/// it denotes a date the model covers (years 1 through 9998, so that a
/// week of lookahead always fits) and a real time of day, and then it is
/// exactly that date and time.
pub fn clock_to_model(y: i32, mo: u32, da: u32, h: u32, mi: u32) -> (r: Option<(Date, Time)>)
    ensures
        r is Some <==> {
            &&& 1 <= y <= 9998
            &&& 1 <= mo <= 12
            &&& 1 <= da <= days_in_month(y as int, mo as int)
            &&& h < 24
            &&& mi < 60
        },
        r matches Some((d, t)) ==> {
            &&& d == (Date { year: y as u32, month: mo, day: da })
            &&& t == (Time { hour: h, minute: mi })
            &&& d.valid()
            &&& d.year < 9999
            &&& t.valid()
        },
{
    if y < 1 || y > 9998 || mo < 1 || mo > 12 {
        return None;
    }
    let year = y as u32;
    let ml = crate::date::month_length(year, mo);
    if da < 1 || da > ml {
        return None;
    }
    if h >= 24 || mi >= 60 {
        return None;
    }
    Some((Date { year, month: mo, day: da }, Time { hour: h, minute: mi }))
}

/// The current local date and time, when the clock reads a moment the
/// calendar model covers; anything outside years 1 through 9998 is
/// rejected rather than misread. What the reading becomes is fixed by
/// `clock_to_model`; only the reading itself is the clock's.
pub fn current_date_time() -> (r: Option<(Date, Time)>)
    ensures
        r matches Some((d, t)) ==> d.valid() && d.year < 9999 && t.valid(),
{
    let (y, mo, da, h, mi) = now_local_raw();
    clock_to_model(y, mo, da, h, mi)
}

} // verus!
