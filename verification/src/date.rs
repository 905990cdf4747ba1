//! Calendar dates and times of day, modelled as plain year/month/day and
//! hour/minute values in the proleptic Gregorian calendar.
//!
//! The central model is `day_num`, the number of days since the calendar's
//! first day (January 1st of year 1, a Monday). All ordering, arithmetic and
//! weekday contracts are stated over it.

use vstd::prelude::*;
use vstd::string::*;

verus! {

/// A wall-clock calendar date (no timezone), year 1 through 9999.
#[derive(Clone, Copy, Debug, PartialEq, Eq, Structural)]
pub struct Date {
    pub year: u32,
    pub month: u32,
    pub day: u32,
}

/// A wall-clock time of day with minute precision.
#[derive(Clone, Copy, Debug, PartialEq, Eq, Structural)]
pub struct Time {
    pub hour: u32,
    pub minute: u32,
}

/// Days of the week.
#[derive(Clone, Copy, Debug, PartialEq, Eq, Structural)]
pub enum Weekday {
    Monday,
    Tuesday,
    Wednesday,
    Thursday,
    Friday,
    Saturday,
    Sunday,
}

pub open spec fn is_leap_year(y: int) -> bool {
    (y % 4 == 0 && y % 100 != 0) || y % 400 == 0
}

pub open spec fn days_in_month(y: int, m: int) -> int {
    if m == 2 {
        if is_leap_year(y) {
            29
        } else {
            28
        }
    } else if m == 4 || m == 6 || m == 9 || m == 11 {
        30
    } else {
        31
    }
}

/// Days in all years strictly before year `y`.
pub open spec fn days_before_year(y: int) -> int
    decreases y,
{
    if y <= 1 {
        0
    } else {
        days_before_year(y - 1) + if is_leap_year(y - 1) {
            366int
        } else {
            365int
        }
    }
}

/// Days in all months of year `y` strictly before month `m`.
pub open spec fn days_before_month(y: int, m: int) -> int
    decreases m,
{
    if m <= 1 {
        0
    } else {
        days_before_month(y, m - 1) + days_in_month(y, m - 1)
    }
}

/// Number of days from January 1st of year 1 (day 0) to `d`.
pub open spec fn day_num(d: Date) -> int {
    days_before_year(d.year as int) + days_before_month(d.year as int, d.month as int) + d.day - 1
}

pub open spec fn weekday_from_index(i: int) -> Weekday {
    if i == 0 {
        Weekday::Monday
    } else if i == 1 {
        Weekday::Tuesday
    } else if i == 2 {
        Weekday::Wednesday
    } else if i == 3 {
        Weekday::Thursday
    } else if i == 4 {
        Weekday::Friday
    } else if i == 5 {
        Weekday::Saturday
    } else {
        Weekday::Sunday
    }
}

pub open spec fn weekday_index(w: Weekday) -> int {
    match w {
        Weekday::Monday => 0,
        Weekday::Tuesday => 1,
        Weekday::Wednesday => 2,
        Weekday::Thursday => 3,
        Weekday::Friday => 4,
        Weekday::Saturday => 5,
        Weekday::Sunday => 6,
    }
}

/// The weekday of a date; day 0 of the calendar is a Monday.
pub open spec fn weekday_of(d: Date) -> Weekday {
    weekday_from_index(day_num(d) % 7)
}

/// The last representable date.
pub open spec fn max_date() -> Date {
    Date { year: 9999, month: 12, day: 31 }
}

pub fn leap_year(y: u32) -> (r: bool)
    ensures
        r == is_leap_year(y as int),
{
    (y % 4 == 0 && y % 100 != 0) || y % 400 == 0
}

pub fn month_length(y: u32, m: u32) -> (r: u32)
    ensures
        r == days_in_month(y as int, m as int),
{
    if m == 2 {
        if leap_year(y) {
            29
        } else {
            28
        }
    } else if m == 4 || m == 6 || m == 9 || m == 11 {
        30
    } else {
        31
    }
}

impl Date {
    pub open spec fn valid(self) -> bool {
        &&& 1 <= self.year <= 9999
        &&& 1 <= self.month <= 12
        &&& 1 <= self.day <= days_in_month(self.year as int, self.month as int)
    }

    /// Number of days since January 1st of year 1.
    pub fn day_number(&self) -> (n: u64)
        requires
            self.valid(),
        ensures
            n == day_num(*self),
            n <= 3_700_000,
    {
        let mut acc: u64 = 0;
        let mut y: u32 = 1;
        while y < self.year
            invariant
                1 <= y <= self.year,
                self.year <= 9999,
                acc == days_before_year(y as int),
                acc <= 366 * (y - 1),
            decreases self.year - y,
        {
            acc = acc + if leap_year(y) {
                366
            } else {
                365
            };
            y = y + 1;
        }
        let mut m: u32 = 1;
        while m < self.month
            invariant
                1 <= m <= self.month,
                self.valid(),
                acc == days_before_year(self.year as int) + days_before_month(
                    self.year as int,
                    m as int,
                ),
                acc <= 366 * 9999 + 31 * (m - 1),
            decreases self.month - m,
        {
            acc = acc + month_length(self.year, m) as u64;
            m = m + 1;
        }
        acc + self.day as u64 - 1
    }

    /// The weekday this date falls on.
    pub fn weekday(&self) -> (w: Weekday)
        requires
            self.valid(),
        ensures
            w == weekday_of(*self),
    {
        let i = self.day_number() % 7;
        if i == 0 {
            Weekday::Monday
        } else if i == 1 {
            Weekday::Tuesday
        } else if i == 2 {
            Weekday::Wednesday
        } else if i == 3 {
            Weekday::Thursday
        } else if i == 4 {
            Weekday::Friday
        } else if i == 5 {
            Weekday::Saturday
        } else {
            Weekday::Sunday
        }
    }

    /// The date one day later.
    pub fn next_day(&self) -> (r: Date)
        requires
            self.valid(),
            *self != max_date(),
        ensures
            r.valid(),
            day_num(r) == day_num(*self) + 1,
    {
        let ml = month_length(self.year, self.month);
        if self.day < ml {
            Date { year: self.year, month: self.month, day: self.day + 1 }
        } else if self.month < 12 {
            Date { year: self.year, month: self.month + 1, day: 1 }
        } else {
            let r = Date { year: self.year + 1, month: 1, day: 1 };
            proof {
                lemma_days_before_month_full_year(self.year as int);
            }
            r
        }
    }

    /// The date `n` days later.
    pub fn plus_days(&self, n: u64) -> (r: Date)
        requires
            self.valid(),
            self.year < 9999,
            n <= 365,
        ensures
            r.valid(),
            day_num(r) == day_num(*self) + n,
    {
        proof {
            lemma_day_num_in_year(*self);
            lemma_days_before_year_increasing(self.year as int + 1, 9999);
            lemma_days_before_month_full_year(9999);
            assert(day_num(max_date()) == days_before_year(9999) + 364);
        }
        let mut cur: Date = *self;
        let mut i: u64 = 0;
        while i < n
            invariant
                cur.valid(),
                i <= n,
                day_num(cur) == day_num(*self) + i,
                day_num(*self) + n <= day_num(max_date()),
            decreases n - i,
        {
            proof {
                assert(day_num(cur) < day_num(max_date()));
                assert(cur != max_date());
            }
            cur = cur.next_day();
            i = i + 1;
        }
        cur
    }

    /// This date in `YYYY-MM-DD` form, as the upstream provider expects
    /// it in request paths.
    pub fn iso_string(&self) -> (r: String)
        requires
            self.valid(),
        ensures
            r@ == iso_date_text(*self),
    {
        let mut s = String::new();
        s.append(digit_str(self.year / 1000));
        s.append(digit_str((self.year / 100) % 10));
        s.append(digit_str((self.year / 10) % 10));
        s.append(digit_str(self.year % 10));
        s.append("-");
        s.append(digit_str(self.month / 10));
        s.append(digit_str(self.month % 10));
        s.append("-");
        s.append(digit_str(self.day / 10));
        s.append(digit_str(self.day % 10));
        proof {
            reveal_strlit("-");
            assert(s@ =~= iso_date_text(*self));
        }
        s
    }

    /// Whether this date is on or after `other` in calendar order.
    pub fn on_or_after(&self, other: &Date) -> (r: bool)
        requires
            self.valid(),
            other.valid(),
        ensures
            r == (day_num(*other) <= day_num(*self)),
    {
        other.day_number() <= self.day_number()
    }
}

impl Time {
    pub open spec fn valid(self) -> bool {
        self.hour < 24 && self.minute < 60
    }

    /// Minutes since midnight.
    pub open spec fn spec_minutes(self) -> int {
        self.hour * 60 + self.minute
    }

    /// Whether this time of day is strictly later than `other`.
    pub fn is_after(&self, other: &Time) -> (r: bool)
        ensures
            r == (self.spec_minutes() > other.spec_minutes()),
    {
        self.hour as u64 * 60 + self.minute as u64 > other.hour as u64 * 60 + other.minute as u64
    }
}

/// The decimal digit character for a value below ten.
pub open spec fn digit_char(d: int) -> char {
    if d == 0 {
        '0'
    } else if d == 1 {
        '1'
    } else if d == 2 {
        '2'
    } else if d == 3 {
        '3'
    } else if d == 4 {
        '4'
    } else if d == 5 {
        '5'
    } else if d == 6 {
        '6'
    } else if d == 7 {
        '7'
    } else if d == 8 {
        '8'
    } else {
        '9'
    }
}

/// A date in `YYYY-MM-DD` form, digit by digit.
pub open spec fn iso_date_text(d: Date) -> Seq<char> {
    seq![
        digit_char(d.year as int / 1000),
        digit_char((d.year as int / 100) % 10),
        digit_char((d.year as int / 10) % 10),
        digit_char(d.year as int % 10),
        '-',
        digit_char(d.month as int / 10),
        digit_char(d.month as int % 10),
        '-',
        digit_char(d.day as int / 10),
        digit_char(d.day as int % 10),
    ]
}

fn digit_str(d: u32) -> (r: &'static str)
    requires
        d < 10,
    ensures
        r@ =~= seq![digit_char(d as int)],
{
    proof {
        reveal_strlit("0");
        reveal_strlit("1");
        reveal_strlit("2");
        reveal_strlit("3");
        reveal_strlit("4");
        reveal_strlit("5");
        reveal_strlit("6");
        reveal_strlit("7");
        reveal_strlit("8");
        reveal_strlit("9");
    }
    let r = if d == 0 {
        "0"
    } else if d == 1 {
        "1"
    } else if d == 2 {
        "2"
    } else if d == 3 {
        "3"
    } else if d == 4 {
        "4"
    } else if d == 5 {
        "5"
    } else if d == 6 {
        "6"
    } else if d == 7 {
        "7"
    } else if d == 8 {
        "8"
    } else {
        "9"
    };
    proof {
        assert(r@ =~= seq![digit_char(d as int)]);
    }
    r
}

/// The months of one year sum to the year's length.
pub proof fn lemma_days_before_month_full_year(y: int)
    ensures
        days_before_month(y, 12) + days_in_month(y, 12) == if is_leap_year(y) {
            366int
        } else {
            365int
        },
{
    assert(days_before_month(y, 1) == 0);
    assert(days_before_month(y, 2) == 31);
    assert(days_before_month(y, 3) == 31 + days_in_month(y, 2));
    assert(days_before_month(y, 4) == days_before_month(y, 3) + 31);
    assert(days_before_month(y, 5) == days_before_month(y, 4) + 30);
    assert(days_before_month(y, 6) == days_before_month(y, 5) + 31);
    assert(days_before_month(y, 7) == days_before_month(y, 6) + 30);
    assert(days_before_month(y, 8) == days_before_month(y, 7) + 31);
    assert(days_before_month(y, 9) == days_before_month(y, 8) + 31);
    assert(days_before_month(y, 10) == days_before_month(y, 9) + 30);
    assert(days_before_month(y, 11) == days_before_month(y, 10) + 31);
    assert(days_before_month(y, 12) == days_before_month(y, 11) + 30);
}

/// `days_before_month` grows with the month.
pub proof fn lemma_days_before_month_increasing(y: int, m1: int, m2: int)
    requires
        m1 <= m2,
    ensures
        days_before_month(y, m1) <= days_before_month(y, m2),
    decreases m2 - m1,
{
    if m1 < m2 {
        lemma_days_before_month_increasing(y, m1, m2 - 1);
    }
}

/// `days_before_year` grows with the year.
pub proof fn lemma_days_before_year_increasing(y1: int, y2: int)
    requires
        y1 <= y2,
    ensures
        days_before_year(y1) <= days_before_year(y2),
    decreases y2 - y1,
{
    if y1 < y2 {
        lemma_days_before_year_increasing(y1, y2 - 1);
    }
}

/// A valid date's day number lies within its year.
pub proof fn lemma_day_num_in_year(d: Date)
    requires
        d.valid(),
    ensures
        days_before_year(d.year as int) <= day_num(d),
        day_num(d) < days_before_year(d.year as int + 1),
{
    let y = d.year as int;
    let m = d.month as int;
    lemma_days_before_month_increasing(y, 1, m);
    lemma_days_before_month_increasing(y, m + 1, 13);
    lemma_days_before_month_full_year(y);
    assert(days_before_month(y, m + 1) == days_before_month(y, m) + days_in_month(y, m));
    assert(days_before_month(y, 13) == days_before_month(y, 12) + days_in_month(y, 12));
    assert(days_before_year(y + 1) == days_before_year(y) + if is_leap_year(y) {
        366int
    } else {
        365int
    });
}

} // verus!
