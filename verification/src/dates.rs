//! Calendar-date validation for period records.  A period's key and end date
//! must both be calendar dates in `YYYY-MM-DD` form; a malformed date aborts
//! the whole upload batch.  Which strings denote calendar dates (month and
//! day ranges, leap years) is decided by the date library and named here.

use crate::models::{period_views, PeriodSyncItem, PeriodV};
use vstd::prelude::*;

verus! {

/// Whether `s` parses as a calendar date in `YYYY-MM-DD` form.  The answer is
/// a function of the characters alone.
pub uninterp spec fn is_iso_date(s: Seq<char>) -> bool;

/// Relies on `chrono::NaiveDate::parse_from_str` with the fixed format
/// `"%Y-%m-%d"`: it returns `Ok` or an error value depending only on `s`,
/// and never panics.
#[verifier::external_body]
fn iso_date_ok(s: &str) -> (r: bool)
    ensures
        r == is_iso_date(s@),
{
    chrono::NaiveDate::parse_from_str(s, "%Y-%m-%d").is_ok()
}

/// A period is well-dated when both its start and its end parse as dates.
pub open spec fn period_dates_ok(p: PeriodV) -> bool {
    is_iso_date(p.start_date) && is_iso_date(p.end_date)
}

/// A batch of periods is accepted only when every record is well-dated.
pub open spec fn all_periods_ok(s: Seq<PeriodV>) -> bool {
    forall|i: int| 0 <= i < s.len() ==> #[trigger] period_dates_ok(s[i])
}

/// Checks every period of a batch; the first malformed date condemns it.
pub fn periods_valid(periods: &Vec<PeriodSyncItem>) -> (r: bool)
    ensures
        r == all_periods_ok(period_views(periods@)),
{
    let views = Ghost(period_views(periods@));
    let mut i: usize = 0;
    while i < periods.len()
        invariant
            i <= periods.len(),
            views@ == period_views(periods@),
            forall|j: int| 0 <= j < i ==> #[trigger] period_dates_ok(views@[j]),
        decreases periods.len() - i,
    {
        assert(views@[i as int] == periods@[i as int]@);
        if !iso_date_ok(periods[i].startDate.as_str()) {
            assert(!period_dates_ok(views@[i as int]));
            return false;
        }
        if !iso_date_ok(periods[i].endDate.as_str()) {
            assert(!period_dates_ok(views@[i as int]));
            return false;
        }
        i = i + 1;
    }
    true
}

} // verus!
