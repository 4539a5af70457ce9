//! Dates of the proleptic Gregorian calendar and the arithmetic of its days.

use vstd::prelude::*;

verus! {

/// The earliest year in which a supported date can fall.
pub const MIN_YEAR: i32 = -262_143;

/// The latest year in which a supported date can fall.
pub const MAX_YEAR: i32 = 262_142;

/// Whether `year` has 366 days.
pub open spec fn is_leap_year(year: int) -> bool {
    year % 4 == 0 && (year % 100 != 0 || year % 400 == 0)
}

/// The number of days of `year`.
pub open spec fn days_in_year(year: int) -> int {
    if is_leap_year(year) { 366 } else { 365 }
}

/// The number of days of month `month` of `year`, for the months 1 to 12.
pub open spec fn days_in_month(year: int, month: int) -> int {
    if month == 2 {
        if is_leap_year(year) { 29 } else { 28 }
    } else if month == 4 || month == 6 || month == 9 || month == 11 {
        30
    } else {
        31
    }
}

/// The number of days of `year` that come before the first day of `month`,
/// for the months 1 to 12.
pub open spec fn days_before_month(year: int, month: int) -> int {
    let in_common_year: int = if month <= 1 {
        0
    } else if month == 2 {
        31
    } else if month == 3 {
        59
    } else if month == 4 {
        90
    } else if month == 5 {
        120
    } else if month == 6 {
        151
    } else if month == 7 {
        181
    } else if month == 8 {
        212
    } else if month == 9 {
        243
    } else if month == 10 {
        273
    } else if month == 11 {
        304
    } else {
        334
    };
    if month > 2 && is_leap_year(year) {
        in_common_year + 1
    } else {
        in_common_year
    }
}

/// The number of days from 1 January of year 1 to 1 January of `year`;
/// negative for the years before year 1.
pub open spec fn days_before_year(year: int) -> int {
    365 * (year - 1) + (year - 1) / 4 - (year - 1) / 100 + (year - 1) / 400
}

/// A calendar day as three mathematical integers.
pub struct CivilDate {
    /// The year; year 0 comes before year 1, and negative years before it.
    pub year: int,
    /// The month, from 1 to 12.
    pub month: int,
    /// The day of the month, from 1.
    pub day: int,
}

impl CivilDate {
    /// The day exists in the calendar.
    pub open spec fn is_valid(self) -> bool {
        &&& 1 <= self.month <= 12
        &&& 1 <= self.day <= days_in_month(self.year, self.month)
    }

    /// `self` comes strictly before `other`.
    pub open spec fn precedes(self, other: CivilDate) -> bool {
        ||| self.year < other.year
        ||| self.year == other.year && self.month < other.month
        ||| self.year == other.year && self.month == other.month && self.day < other.day
    }

    /// The position of the day on the line of all days: 1 for 1 January of
    /// year 1, and one more for each day after it.
    pub open spec fn day_number(self) -> int {
        days_before_year(self.year) + days_before_month(self.year, self.month) + self.day
    }

    /// The day exists and lies between 22 September of `MIN_YEAR` and
    /// 31 December of `MAX_YEAR`, both included.
    pub open spec fn is_supported(self) -> bool {
        &&& self.is_valid()
        &&& MIN_YEAR <= self.year <= MAX_YEAR
        &&& !self.precedes(CivilDate { year: MIN_YEAR as int, month: 9, day: 22 })
    }
}

/// Each month begins as many days after the month before it as that month
/// is long, and the twelve months fill the year.
pub proof fn lemma_month_follows_month(year: int, month: int)
    requires
        1 <= month <= 12,
    ensures
        days_before_month(year, 1) == 0,
        month < 12 ==> days_before_month(year, month + 1) == days_before_month(year, month)
            + days_in_month(year, month),
        month == 12 ==> days_in_year(year) == days_before_month(year, month) + days_in_month(
            year,
            month,
        ),
{
}

/// A year begins as many days after the year before it as that year is long.
pub proof fn lemma_next_year(year: int)
    ensures
        days_before_year(year + 1) == days_before_year(year) + days_in_year(year),
{
}

/// Of two years, the later one begins at least 365 days later for each year
/// between them.
pub proof fn lemma_years_in_order(earlier: int, later: int)
    requires
        earlier <= later,
    ensures
        days_before_year(later) - days_before_year(earlier) >= 365 * (later - earlier),
    decreases later - earlier,
{
    if earlier < later {
        lemma_years_in_order(earlier, later - 1);
        lemma_next_year(later - 1);
    }
}

/// Day numbers follow the order of the calendar: of two days that exist, the
/// one that comes first has the smaller number.
pub proof fn lemma_day_number_increases(first: CivilDate, second: CivilDate)
    requires
        first.is_valid(),
        second.is_valid(),
        first.precedes(second),
    ensures
        first.day_number() < second.day_number(),
{
    if first.year < second.year {
        lemma_next_year(first.year);
        lemma_years_in_order(first.year + 1, second.year);
    }
}

/// A supported day of the proleptic Gregorian calendar.
#[derive(Clone, Copy, Debug, PartialEq, Eq)]
pub struct GregorianDate {
    pub(crate) year: i32,
    pub(crate) month: u32,
    pub(crate) day: u32,
}

impl View for GregorianDate {
    type V = CivilDate;

    closed spec fn view(&self) -> CivilDate {
        CivilDate { year: self.year as int, month: self.month as int, day: self.day as int }
    }
}

/// Whether `year` has 366 days.
pub fn leap_year(year: i32) -> (leap: bool)
    ensures
        leap == is_leap_year(year as int),
{
    year % 4 == 0 && (year % 100 != 0 || year % 400 == 0)
}

/// The number of days of month `month` of `year`, for the months 1 to 12.
pub fn month_length(year: i32, month: u32) -> (days: u32)
    ensures
        days == days_in_month(year as int, month as int),
{
    if month == 2 {
        if leap_year(year) { 29 } else { 28 }
    } else if month == 4 || month == 6 || month == 9 || month == 11 {
        30
    } else {
        31
    }
}

impl GregorianDate {
    /// Every date is a supported day.
    #[verifier::type_invariant]
    pub open spec fn is_supported(self) -> bool {
        self@.is_supported()
    }

    /// The date of the given year, month and day, where that day is
    /// supported.
    pub fn new(year: i32, month: u32, day: u32) -> (date: Option<GregorianDate>)
        ensures
            date is Some <==> (CivilDate {
                year: year as int,
                month: month as int,
                day: day as int,
            }).is_supported(),
            date matches Some(d) ==> d@ == (CivilDate {
                year: year as int,
                month: month as int,
                day: day as int,
            }),
    {
        if year < MIN_YEAR || year > MAX_YEAR || month < 1 || month > 12 || day < 1 {
            return None;
        }
        if day > month_length(year, month) {
            return None;
        }
        if year == MIN_YEAR && (month < 9 || (month == 9 && day < 22)) {
            return None;
        }
        Some(GregorianDate { year, month, day })
    }

    /// The year of the date.
    pub fn year(&self) -> (year: i32)
        ensures
            year == self@.year,
    {
        self.year
    }

    /// The month of the date, from 1 to 12.
    pub fn month(&self) -> (month: u32)
        ensures
            month == self@.month,
    {
        self.month
    }

    /// The day of the month, from 1.
    pub fn day(&self) -> (day: u32)
        ensures
            day == self@.day,
    {
        self.day
    }

    /// Whether `self` comes strictly before `other`.
    pub fn is_before(&self, other: &GregorianDate) -> (before: bool)
        ensures
            before == self@.precedes(other@),
    {
        self.year < other.year || (self.year == other.year && (self.month < other.month || (
        self.month == other.month && self.day < other.day)))
    }
}

} // verus!
