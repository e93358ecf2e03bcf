//! The calendar side of cost analytics: the months that a monthly aggregation
//! compares. The cost figures themselves are floating-point and stay with the
//! caller.
use vstd::prelude::*;
use crate::calendar::{CivilDate, MAX_YEAR, MIN_YEAR};
use crate::errors::AppError;
use crate::text::owned;

verus! {

/// The cost analytics service: its calendar decisions.
pub struct AwsCostAnalyticsService;

/// The first days of the previous, the current and the next month of `today`.
pub open spec fn month_starts(today: (int, int, int)) -> ((int, int, int), (int, int, int), (int, int, int)) {
    let (y, m, _d) = today;
    (
        if m == 1 {
            (y - 1, 12, 1)
        } else {
            (y, m - 1, 1)
        },
        (y, m, 1),
        if m == 12 {
            (y + 1, 1, 1)
        } else {
            (y, m + 1, 1)
        },
    )
}

impl AwsCostAnalyticsService {
    pub fn new() -> (r: AwsCostAnalyticsService) {
        AwsCostAnalyticsService
    }

    /// The months a monthly aggregation works on, as their first days: the
    /// previous month (compared against), the current month, and the next one
    /// (where the current month's costs end). Where one of them falls outside
    /// the calendar, the matching validation error comes back.
    pub fn month_window(&self, today: &CivilDate) -> (r: Result<(CivilDate, CivilDate, CivilDate), AppError>)
        ensures
            r is Ok <==> !(today@.1 == 1 && today@.0 == MIN_YEAR) && !(today@.1 == 12 && today@.0
                == MAX_YEAR),
            r matches Ok(w) ==> (w.0@, w.1@, w.2@) == month_starts(today@),
            r matches Err(e) ==> e matches AppError::Validation(m) && (if today@.1 == 1
                && today@.0 == MIN_YEAR {
                m@ == "Invalid previous month date"@
            } else {
                m@ == "Invalid month end date"@
            }),
    {
        let y = today.year();
        let m = today.month();
        let current = match CivilDate::from_ymd_opt(y, m, 1) {
            Some(d) => d,
            None => { return Err(AppError::Validation(owned("Invalid date"))); },
        };
        let previous = if m == 1 {
            if y > MIN_YEAR {
                CivilDate::from_ymd_opt(y - 1, 12, 1)
            } else {
                None
            }
        } else {
            CivilDate::from_ymd_opt(y, m - 1, 1)
        };
        let previous = match previous {
            Some(d) => d,
            None => { return Err(AppError::Validation(owned("Invalid previous month date"))); },
        };
        let next = if m == 12 {
            if y < MAX_YEAR {
                CivilDate::from_ymd_opt(y + 1, 1, 1)
            } else {
                None
            }
        } else {
            CivilDate::from_ymd_opt(y, m + 1, 1)
        };
        let next = match next {
            Some(d) => d,
            None => { return Err(AppError::Validation(owned("Invalid month end date"))); },
        };
        Ok((previous, current, next))
    }
}

} // verus!
