//! The menu data model published by the upstream provider, and the checked
//! conversion from the provider's wire form of a date (zero-indexed month)
//! into a calendar date.

use vstd::prelude::*;

use crate::date::{days_in_month, Date};

verus! {

/// Envelope every upstream response arrives in.
#[derive(Clone, Debug, PartialEq)]
pub struct ApiResult<T> {
    pub success: bool,
    pub data: T,
}

/// A canteen location.
#[derive(Clone, Debug, PartialEq)]
pub struct Canteen {
    pub id: String,
    pub name: String,
}

/// A named serving station with its meals for one day.
#[derive(Clone, Debug, PartialEq)]
pub struct Line {
    pub id: Option<String>,
    pub name: String,
    pub meals: Vec<Meal>,
}

/// One meal: name, price text (empty means unpriced) and dietary tags.
#[derive(Clone, Debug, PartialEq)]
pub struct Meal {
    pub name: String,
    pub price: String,
    pub classifiers: Vec<Classifier>,
    pub additives: Vec<String>,
}

/// A dietary or allergen tag on a meal. The order of the variants is the
/// fixed presentation order used to pick a meal's leading emoji.
#[derive(Clone, Copy, Debug, PartialEq, Eq, Structural)]
pub enum Classifier {
    Pork,
    OrganicPork,
    Beef,
    OrganicBeef,
    Gelatine,
    Fish,
    AnimalRennet,
    Vegetarian,
    Vegan,
    MensaVital,
}

/// One canteen's published menu for one date.
#[derive(Clone, Debug, PartialEq)]
pub struct CanteenData {
    pub date: Date,
    pub canteen: Canteen,
    pub lines: Vec<Line>,
}

/// A date as the upstream provider serializes it: day and year as given,
/// month counted from zero.
#[derive(Clone, Copy, Debug, PartialEq, Eq, Structural)]
pub struct RawDate {
    pub day: i64,
    pub month: i64,
    pub year: i64,
}

/// Failures talking to or understanding the upstream menu provider.
#[derive(Clone, Copy, Debug, PartialEq, Eq, Structural)]
pub enum MenuSourceError {
    /// Transport failure reaching the provider.
    SourceUnreachable,
    /// The provider's data does not fit the data model.
    MalformedResponse,
}

/// Whether a wire date denotes a representable calendar date once its
/// zero-indexed month is shifted to one-indexed.
pub open spec fn raw_date_ok(raw: RawDate) -> bool {
    &&& 1 <= raw.year <= 9999
    &&& 0 <= raw.month <= 11
    &&& 1 <= raw.day <= days_in_month(raw.year as int, raw.month + 1)
}

/// The calendar date a well-formed wire date denotes.
pub open spec fn raw_date_value(raw: RawDate) -> Date {
    Date { year: raw.year as u32, month: (raw.month + 1) as u32, day: raw.day as u32 }
}

/// Convert a wire date (zero-indexed month) into a calendar date, rejecting
/// anything that is not a real calendar date.
pub fn date_from_raw(raw: &RawDate) -> (r: Result<Date, MenuSourceError>)
    ensures
        raw_date_ok(*raw) ==> r == Ok::<Date, MenuSourceError>(raw_date_value(*raw)),
        !raw_date_ok(*raw) ==> r == Err::<Date, MenuSourceError>(MenuSourceError::MalformedResponse),
        r matches Ok(d) ==> d.valid() && day_num_matches(*raw, d),
{
    if raw.year < 1 || raw.year > 9999 || raw.month < 0 || raw.month > 11 {
        return Err(MenuSourceError::MalformedResponse);
    }
    let year = raw.year as u32;
    let month = (raw.month + 1) as u32;
    let ml = crate::date::month_length(year, month);
    if raw.day < 1 || raw.day > ml as i64 {
        return Err(MenuSourceError::MalformedResponse);
    }
    Ok(Date { year, month, day: raw.day as u32 })
}

/// The converted date carries exactly the wire date's fields.
pub open spec fn day_num_matches(raw: RawDate, d: Date) -> bool {
    d.year == raw.year && d.month == raw.month + 1 && d.day == raw.day
}

/// Convert the provider's list of wire dates into calendar dates, failing
/// on the first entry that is not a real calendar date.
pub fn plans_from_raw(raw: &Vec<RawDate>) -> (r: Result<Vec<Date>, MenuSourceError>)
    ensures
        (forall|i: int| 0 <= i < raw@.len() ==> raw_date_ok(#[trigger] raw@[i])) <==> r is Ok,
        r matches Ok(v) ==> {
            &&& v@.len() == raw@.len()
            &&& forall|i: int| 0 <= i < raw@.len() ==> #[trigger] v@[i] == raw_date_value(raw@[i])
            &&& forall|i: int| 0 <= i < v@.len() ==> (#[trigger] v@[i]).valid()
        },
        r matches Err(e) ==> e == MenuSourceError::MalformedResponse,
{
    let mut out: Vec<Date> = Vec::new();
    let mut i: usize = 0;
    while i < raw.len()
        invariant
            i <= raw@.len(),
            out@.len() == i,
            forall|j: int| 0 <= j < i ==> raw_date_ok(#[trigger] raw@[j]),
            forall|j: int| 0 <= j < i ==> #[trigger] out@[j] == raw_date_value(raw@[j]),
            forall|j: int| 0 <= j < i ==> (#[trigger] out@[j]).valid(),
        decreases raw@.len() - i,
    {
        match date_from_raw(&raw[i]) {
            Ok(d) => {
                out.push(d);
            },
            Err(e) => {
                return Err(e);
            },
        }
        i = i + 1;
    }
    Ok(out)
}

} // verus!
