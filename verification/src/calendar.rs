//! Calendar dates of the proleptic Gregorian calendar, over the years that
//! chrono's `NaiveDate` covers.
use vstd::prelude::*;

verus! {

/// The first year a date can have.
pub const MIN_YEAR: i32 = -262143;

/// The last year a date can have.
pub const MAX_YEAR: i32 = 262142;

/// Leap years: divisible by 4, except centuries not divisible by 400.
pub open spec fn is_leap(y: int) -> bool {
    (y % 4 == 0 && y % 100 != 0) || y % 400 == 0
}

/// The number of days of month `m` of year `y`.
pub open spec fn days_in(y: int, m: int) -> int {
    if m == 2 {
        if is_leap(y) {
            29
        } else {
            28
        }
    } else if m == 4 || m == 6 || m == 9 || m == 11 {
        30
    } else {
        31
    }
}

/// `(y, m, d)` is a date: a year in range, a month, a day of that month.
pub open spec fn valid_ymd(y: int, m: int, d: int) -> bool {
    MIN_YEAR <= y <= MAX_YEAR && 1 <= m <= 12 && 1 <= d <= days_in(y, m)
}

/// The day before `(y, m, d)`, if it is still in range.
pub open spec fn day_before(date: (int, int, int)) -> Option<(int, int, int)> {
    let (y, m, d) = date;
    if d > 1 {
        Some((y, m, d - 1))
    } else if m > 1 {
        Some((y, m - 1, days_in(y, m - 1)))
    } else if y > MIN_YEAR {
        Some((y - 1, 12, 31))
    } else {
        None
    }
}

/// `a` comes strictly before `b`.
pub open spec fn earlier(a: (int, int, int), b: (int, int, int)) -> bool {
    a.0 < b.0 || (a.0 == b.0 && (a.1 < b.1 || (a.1 == b.1 && a.2 < b.2)))
}

/// `a` comes before `b` or is `b`.
pub open spec fn not_later(a: (int, int, int), b: (int, int, int)) -> bool {
    earlier(a, b) || a == b
}

/// A calendar date.
#[derive(Debug, Clone, Copy, PartialEq, Eq, Structural)]
pub struct CivilDate {
    year: i32,
    month: u32,
    day: u32,
}

impl View for CivilDate {
    type V = (int, int, int);

    closed spec fn view(&self) -> (int, int, int) {
        (self.year as int, self.month as int, self.day as int)
    }
}

impl CivilDate {
    #[verifier::type_invariant]
    closed spec fn is_date(self) -> bool {
        valid_ymd(self.year as int, self.month as int, self.day as int)
    }

    /// The date with this year, month and day; `None` where there is none.
    pub fn from_ymd_opt(year: i32, month: u32, day: u32) -> (r: Option<CivilDate>)
        ensures
            r is Some <==> valid_ymd(year as int, month as int, day as int),
            r matches Some(d) ==> d@ == (year as int, month as int, day as int),
    {
        if MIN_YEAR <= year && year <= MAX_YEAR && 1 <= month && month <= 12 && 1 <= day && day
            <= days_in_month(year, month) {
            Some(CivilDate { year, month, day })
        } else {
            None
        }
    }

    /// The day before; `None` before the first date there is.
    pub fn pred_opt(&self) -> (r: Option<CivilDate>)
        ensures
            match day_before(self@) {
                Some(p) => r matches Some(d) && d@ == p,
                None => r is None,
            },
    {
        proof {
            use_type_invariant(self);
        }
        if self.day > 1 {
            Some(CivilDate { year: self.year, month: self.month, day: self.day - 1 })
        } else if self.month > 1 {
            let m = self.month - 1;
            Some(CivilDate { year: self.year, month: m, day: days_in_month(self.year, m) })
        } else if self.year > MIN_YEAR {
            Some(CivilDate { year: self.year - 1, month: 12, day: 31 })
        } else {
            None
        }
    }

    pub fn year(&self) -> (r: i32)
        ensures
            r == self@.0,
            MIN_YEAR <= r <= MAX_YEAR,
    {
        proof {
            use_type_invariant(self);
        }
        self.year
    }

    pub fn month(&self) -> (r: u32)
        ensures
            r == self@.1,
            1 <= r <= 12,
    {
        proof {
            use_type_invariant(self);
        }
        self.month
    }

    pub fn day(&self) -> (r: u32)
        ensures
            r == self@.2,
            1 <= r <= days_in(self@.0, self@.1),
    {
        proof {
            use_type_invariant(self);
        }
        self.day
    }

    /// Whether this date comes strictly before `other`.
    pub fn is_before(&self, other: &CivilDate) -> (r: bool)
        ensures
            r == earlier(self@, other@),
    {
        self.year < other.year || (self.year == other.year && (self.month < other.month || (
        self.month == other.month && self.day < other.day)))
    }
}

/// The number of days of a month.
pub fn days_in_month(year: i32, month: u32) -> (r: u32)
    requires
        1 <= month <= 12,
    ensures
        r == days_in(year as int, month as int),
{
    if month == 2 {
        if (year % 4 == 0 && year % 100 != 0) || year % 400 == 0 {
            29
        } else {
            28
        }
    } else if month == 4 || month == 6 || month == 9 || month == 11 {
        30
    } else {
        31
    }
}

} // verus!
