//! The days whose readings are collected, as `YYYY-MM-DD` text.
use vstd::prelude::*;

use crate::opt_view;

verus! {

/// The `YYYY-MM-DD` text of the proleptic Gregorian day with the given
/// number (day 1 is 0001-01-01), or `None` outside chrono's date range.
pub uninterp spec fn iso_date_of(days_from_ce: i32) -> Option<Seq<char>>;

/// Relies on chrono's `NaiveDate::from_num_days_from_ce_opt` and its
/// `%Y-%m-%d` formatting: the result depends on the day number alone.
#[verifier::external_body]
fn iso_date(days_from_ce: i32) -> (r: Option<String>)
    ensures
        opt_view(r) == iso_date_of(days_from_ce),
{
    chrono::NaiveDate::from_num_days_from_ce_opt(days_from_ce).map(
        |d| d.format("%Y-%m-%d").to_string(),
    )
}

/// The day before `today` and `today`, in that order; `None` where either
/// lies outside the dates that can be written.
pub fn yesterday_and_today(today: i32) -> (r: Option<Vec<String>>)
    ensures
        today == i32::MIN ==> r is None,
        today > i32::MIN ==> match (iso_date_of((today - 1) as i32), iso_date_of(today)) {
            (Some(y), Some(t)) => r matches Some(v) && v@.len() == 2 && v@[0]@ == y && v@[1]@ == t,
            _ => r is None,
        },
{
    if today == i32::MIN {
        return None;
    }
    let yesterday = iso_date(today - 1);
    let current = iso_date(today);
    match (yesterday, current) {
        (Some(y), Some(t)) => {
            let mut v: Vec<String> = Vec::new();
            v.push(y);
            v.push(t);
            Some(v)
        },
        _ => None,
    }
}

} // verus!
