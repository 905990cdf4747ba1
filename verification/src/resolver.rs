//! Resolution of a day request against the list of days the menu provider
//! actually has data for: pick the first available day on or after the
//! requested (or rollover-adjusted) baseline day, and classify why the
//! chosen day differs from the naive request, if it does.

use vstd::prelude::*;

use crate::date::{day_num, Date, Time};

verus! {

/// Why the day finally shown differs from the day naively asked for.
#[derive(Clone, Copy, Debug, PartialEq, Eq, Structural)]
pub enum DayCorrection {
    /// Request could be fully processed without any correction to the date.
    Same,
    /// Canteen is past roll-over time, skipped to next day.
    RollOver,
    /// Canteen is closed on the given day, skipped to next open day.
    DaysSkipped,
}

/// The day number the lookup starts from: the requested date itself, or
/// today, moved one day ahead when the time of day is past roll-over.
pub open spec fn baseline_day(
    requested: Option<Date>,
    now_date: Date,
    now_time: Time,
    roll_over: Time,
) -> int {
    match requested {
        Some(d) => day_num(d),
        None => if now_time.spec_minutes() > roll_over.spec_minutes() {
            day_num(now_date) + 1
        } else {
            day_num(now_date)
        },
    }
}

/// The correction already implied before looking at availability.
pub open spec fn baseline_correction(
    requested: Option<Date>,
    now_time: Time,
    roll_over: Time,
) -> DayCorrection {
    match requested {
        Some(_) => DayCorrection::Same,
        None => if now_time.spec_minutes() > roll_over.spec_minutes() {
            DayCorrection::RollOver
        } else {
            DayCorrection::Same
        },
    }
}

/// The available date with the smallest day number that is on or after
/// `baseline`; on equal day numbers the earlier list entry wins.
pub open spec fn select_plan(avail: Seq<Date>, baseline: int) -> Option<Date>
    decreases avail.len(),
{
    if avail.len() == 0 {
        None
    } else {
        let rest = select_plan(avail.drop_last(), baseline);
        let last = avail.last();
        if day_num(last) >= baseline {
            match rest {
                None => Some(last),
                Some(b) => if day_num(last) < day_num(b) {
                    Some(last)
                } else {
                    Some(b)
                },
            }
        } else {
            rest
        }
    }
}

/// Resolution from a baseline day and the correction already implied:
/// select the first available day on or after the baseline; a mismatch is
/// reported as a skip only when no correction fired before — an earlier
/// roll-over correction takes precedence.
pub open spec fn resolve_from(base: int, corr0: DayCorrection, avail: Seq<Date>) -> (
    Option<Date>,
    DayCorrection,
) {
    let sel = select_plan(avail, base);
    let corr = match sel {
        None => corr0,
        Some(d) => if day_num(d) != base && corr0 == DayCorrection::Same {
            DayCorrection::DaysSkipped
        } else {
            corr0
        },
    };
    (sel, corr)
}

/// Full resolution outcome: the selected date, if any, and the correction.
pub open spec fn resolve_spec(
    requested: Option<Date>,
    now_date: Date,
    now_time: Time,
    roll_over: Time,
    avail: Seq<Date>,
) -> (Option<Date>, DayCorrection) {
    resolve_from(
        baseline_day(requested, now_date, now_time, roll_over),
        baseline_correction(requested, now_time, roll_over),
        avail,
    )
}

/// Resolve a day request against the list of available days.
///
/// Returns the first available day on or after the baseline day (the
/// requested day, or today adjusted by the roll-over rule), together with
/// the reason the shown day differs from the naive request, if it does.
pub fn resolve(
    requested: Option<Date>,
    now_date: Date,
    now_time: Time,
    roll_over: Time,
    available: &Vec<Date>,
) -> (r: (Option<Date>, DayCorrection))
    requires
        requested matches Some(d) ==> d.valid(),
        now_date.valid(),
        now_date.year < 9999,
        forall|i: int| 0 <= i < available@.len() ==> (#[trigger] available@[i]).valid(),
    ensures
        r == resolve_spec(requested, now_date, now_time, roll_over, available@),
        r.0 matches Some(d) ==> d.valid(),
{
    let ghost base_spec = baseline_day(requested, now_date, now_time, roll_over);
    let baseline: u64 = match &requested {
        Some(d) => d.day_number(),
        None => {
            let n = now_date.day_number();
            if now_time.is_after(&roll_over) {
                proof {
                    crate::date::lemma_day_num_in_year(now_date);
                }
                n + 1
            } else {
                n
            }
        },
    };
    let mut best: Option<Date> = None;
    let mut best_num: u64 = 0;
    let mut i: usize = 0;
    while i < available.len()
        invariant
            i <= available@.len(),
            baseline == base_spec,
            forall|j: int| 0 <= j < available@.len() ==> (#[trigger] available@[j]).valid(),
            best == select_plan(available@.take(i as int), base_spec),
            best matches Some(b) ==> b.valid() && best_num == day_num(b),
        decreases available@.len() - i,
    {
        let d = available[i];
        let dn = d.day_number();
        proof {
            assert(available@.take(i as int + 1).drop_last() =~= available@.take(i as int));
            assert(available@.take(i as int + 1).last() == available@[i as int]);
        }
        if dn >= baseline {
            match &best {
                None => {
                    best = Some(d);
                    best_num = dn;
                },
                Some(_) => {
                    if dn < best_num {
                        best = Some(d);
                        best_num = dn;
                    }
                },
            }
        }
        i = i + 1;
    }
    proof {
        assert(available@.take(available@.len() as int) =~= available@);
    }
    let correction: DayCorrection = match &best {
        None => {
            match &requested {
                Some(_) => DayCorrection::Same,
                None => {
                    if now_time.is_after(&roll_over) {
                        DayCorrection::RollOver
                    } else {
                        DayCorrection::Same
                    }
                },
            }
        },
        Some(_) => {
            let skipped = best_num != baseline;
            match &requested {
                Some(_) => if skipped {
                    DayCorrection::DaysSkipped
                } else {
                    DayCorrection::Same
                },
                None => {
                    if now_time.is_after(&roll_over) {
                        DayCorrection::RollOver
                    } else if skipped {
                        DayCorrection::DaysSkipped
                    } else {
                        DayCorrection::Same
                    }
                },
            }
        },
    };
    (best, correction)
}

/// The selected day, when there is one, is an available day on or after
/// the baseline, and no available day on or after the baseline is earlier.
pub proof fn lemma_select_plan_properties(avail: Seq<Date>, baseline: int)
    ensures
        select_plan(avail, baseline) is None <==> (forall|i: int|
            0 <= i < avail.len() ==> day_num(#[trigger] avail[i]) < baseline),
        select_plan(avail, baseline) matches Some(d) ==> {
            &&& exists|i: int| 0 <= i < avail.len() && avail[i] == d
            &&& day_num(d) >= baseline
            &&& forall|i: int|
                0 <= i < avail.len() && day_num(#[trigger] avail[i]) >= baseline ==> day_num(d)
                    <= day_num(avail[i])
        },
    decreases avail.len(),
{
    if avail.len() > 0 {
        lemma_select_plan_properties(avail.drop_last(), baseline);
        assert forall|i: int| 0 <= i < avail.len() - 1 implies avail.drop_last()[i] == avail[i] by {}
        let rest = select_plan(avail.drop_last(), baseline);
        if rest is Some {
            let b = rest.unwrap();
            let i = choose|i: int|
                0 <= i < avail.drop_last().len() && avail.drop_last()[i] == b;
            assert(avail[i] == b);
        }
        assert(avail[avail.len() - 1] == avail.last());
    }
}

/// With no available days at all, resolution never selects a date,
/// whatever was requested and whatever the clock says.
pub proof fn lemma_resolve_empty(
    requested: Option<Date>,
    now_date: Date,
    now_time: Time,
    roll_over: Time,
    avail: Seq<Date>,
)
    requires
        avail.len() == 0,
    ensures
        resolve_spec(requested, now_date, now_time, roll_over, avail).0 is None,
{
}

/// Requesting a day that is itself available selects exactly that day,
/// with no correction.
pub proof fn lemma_resolve_exact_match(
    d: Date,
    now_date: Date,
    now_time: Time,
    roll_over: Time,
    avail: Seq<Date>,
)
    requires
        avail =~= seq![d],
    ensures
        resolve_spec(Some(d), now_date, now_time, roll_over, avail) == (
            Some(d),
            DayCorrection::Same,
        ),
{
    reveal_with_fuel(select_plan, 3);
    assert(avail.drop_last() =~= Seq::<Date>::empty());
    assert(avail.last() == d);
}

/// Requesting a day when only a later day is available selects that later
/// day and reports the skip.
pub proof fn lemma_resolve_skips_forward(
    d: Date,
    later: Date,
    now_date: Date,
    now_time: Time,
    roll_over: Time,
    avail: Seq<Date>,
)
    requires
        avail =~= seq![later],
        day_num(later) > day_num(d),
    ensures
        resolve_spec(Some(d), now_date, now_time, roll_over, avail) == (
            Some(later),
            DayCorrection::DaysSkipped,
        ),
{
    reveal_with_fuel(select_plan, 3);
    assert(avail.drop_last() =~= Seq::<Date>::empty());
    assert(avail.last() == later);
}

/// Past roll-over time with no explicit request, and with the next day
/// available, resolution selects the next day and reports the roll-over.
pub proof fn lemma_resolve_rolls_over(
    now_date: Date,
    now_time: Time,
    roll_over: Time,
    tomorrow: Date,
    avail: Seq<Date>,
)
    requires
        now_time == (Time { hour: 23, minute: 0 }),
        roll_over == (Time { hour: 20, minute: 0 }),
        avail =~= seq![tomorrow],
        day_num(tomorrow) == day_num(now_date) + 1,
    ensures
        resolve_spec(None, now_date, now_time, roll_over, avail) == (
            Some(tomorrow),
            DayCorrection::RollOver,
        ),
{
    reveal_with_fuel(select_plan, 3);
    assert(avail.drop_last() =~= Seq::<Date>::empty());
    assert(avail.last() == tomorrow);
}

} // verus!
