//! Dates of the French Republican calendar.

use crate::decimal::{decimal, decimal_numeral};
use crate::elapsed::days_between;
use crate::gregorian::{
    days_in_year, is_leap_year, lemma_day_number_increases, lemma_next_year, CivilDate,
    GregorianDate,
};
use crate::names::{celebration, celebration_name, month, month_name, weekday, weekday_name};
use crate::roman::{roman, roman_numeral};
use vstd::prelude::*;
use vstd::std_specs::convert::FromSpec;
use vstd::string::*;

verus! {

/// A day of the Republican calendar as two mathematical integers.
pub struct RepublicanDay {
    /// Years counted from the autumn of 1792, which begins year 1.
    pub year: int,
    /// Days counted from the Republican new year, which is day 0.
    pub day_index: int,
}

impl RepublicanDay {
    /// The day belongs to one of the twelve months, not to the celebrations
    /// that follow them.
    pub open spec fn is_in_month(self) -> bool {
        self.day_index < 360
    }

    /// The place of the day in its décade, counted from 0.
    pub open spec fn weekday(self) -> int {
        self.day_index % 10
    }

    /// The month of the day, counted from 0.
    pub open spec fn month(self) -> int {
        self.day_index / 30
    }

    /// The place of the day in its month, counted from 1.
    pub open spec fn day_of_month(self) -> int {
        self.day_index % 30 + 1
    }

    /// The place of the day among the celebrations, counted from 0.
    pub open spec fn celebration(self) -> int {
        self.day_index - 360
    }

    /// The day in words: its weekday, day of the month and month, or its
    /// celebration.
    pub open spec fn day_text(self) -> Seq<char> {
        if self.is_in_month() {
            weekday_name(self.weekday()) + " "@ + decimal(self.day_of_month()) + " "@ + month_name(
                self.month(),
            )
        } else {
            celebration_name(self.celebration())
        }
    }

    /// The date in words: the day, then the year as a Roman numeral.
    pub open spec fn text(self) -> Seq<char> {
        self.day_text() + ", Year "@ + roman(self.year)
    }
}

/// The Gregorian year whose 22 September opens the Republican year that
/// `date` falls in.
pub open spec fn new_year_year(date: CivilDate) -> int {
    if date.precedes(CivilDate { year: date.year, month: 9, day: 22 }) {
        date.year - 1
    } else {
        date.year
    }
}

/// The Republican new year on or before `date`.
pub open spec fn new_year(date: CivilDate) -> CivilDate {
    CivilDate { year: new_year_year(date), month: 9, day: 22 }
}

/// The Republican day that the Gregorian day `date` is.
pub open spec fn to_republican(date: CivilDate) -> RepublicanDay {
    RepublicanDay {
        year: new_year_year(date) - 1791,
        day_index: date.day_number() - new_year(date).day_number(),
    }
}

/// Every day that exists falls within the 365 or 366 days that follow the
/// Republican new year before it; it is day 365 only where the Gregorian year
/// that the Republican year ends in is a leap year.
pub proof fn lemma_day_index_bounds(date: CivilDate)
    requires
        date.is_valid(),
    ensures
        0 <= to_republican(date).day_index <= 365,
        to_republican(date).day_index == 365 ==> is_leap_year(new_year_year(date) + 1),
{
    lemma_next_year(date.year - 1);
}

/// Within one Republican year the days are numbered in the order of the
/// Gregorian calendar: of two days that fall in the same Republican year, the
/// one that comes first has the smaller day index.
pub proof fn lemma_day_index_increases(first: CivilDate, second: CivilDate)
    requires
        first.is_valid(),
        second.is_valid(),
        first.precedes(second),
        to_republican(first).year == to_republican(second).year,
    ensures
        to_republican(first).day_index < to_republican(second).day_index,
{
    lemma_day_number_increases(first, second);
}

/// No two days share a Republican date: days that exist and convert to the
/// same Republican year and day index are the same day.
pub proof fn lemma_conversion_is_injective(first: CivilDate, second: CivilDate)
    requires
        first.is_valid(),
        second.is_valid(),
        to_republican(first) == to_republican(second),
    ensures
        first == second,
{
    if first.precedes(second) {
        lemma_day_number_increases(first, second);
    } else if second.precedes(first) {
        lemma_day_number_increases(second, first);
    }
}

/// 22 September is the Republican new year: in every Gregorian year it is
/// day 0 of the Republican year that it opens, and reads
/// "primidi 1 Vendémiaire".
pub proof fn lemma_new_year_is_day_zero(year: int)
    ensures
        to_republican(CivilDate { year, month: 9, day: 22 }) == (RepublicanDay {
            year: year - 1791,
            day_index: 0,
        }),
        to_republican(CivilDate { year, month: 9, day: 22 }).text()
            == "primidi 1 Vendémiaire, Year "@ + roman(year - 1791),
{
    reveal_strlit("primidi");
    reveal_strlit(" ");
    reveal_strlit("1");
    reveal_strlit("Vendémiaire");
    reveal_strlit(", Year ");
    reveal_strlit("primidi 1 Vendémiaire, Year ");
    assert("primidi"@ + " "@ + "1"@ + " "@ + "Vendémiaire"@ + ", Year "@
        =~= "primidi 1 Vendémiaire, Year "@);
}

/// The Republican year turns on 22 September: the day before is the last day
/// of one Republican year, and the day after is day 1 of the next.
pub proof fn lemma_year_turns_on_new_year(year: int)
    ensures
        to_republican(CivilDate { year, month: 9, day: 21 }) == (RepublicanDay {
            year: year - 1792,
            day_index: days_in_year(year) - 1,
        }),
        to_republican(CivilDate { year, month: 9, day: 23 }) == (RepublicanDay {
            year: year - 1791,
            day_index: 1,
        }),
        to_republican(CivilDate { year, month: 9, day: 21 }).year + 1 == to_republican(
            CivilDate { year, month: 9, day: 23 },
        ).year,
{
    lemma_next_year(year - 1);
}

/// The décade runs on through the months without a break: among the days of
/// the twelve months, the day that comes ten days after another has the same
/// weekday.
pub proof fn lemma_weekday_repeats(year: int, day_index: int)
    requires
        0 <= day_index,
        day_index + 10 < 360,
    ensures
        (RepublicanDay { year, day_index: day_index + 10 }).weekday() == (RepublicanDay {
            year,
            day_index,
        }).weekday(),
{
}

/// Each of the twelve months has thirty days: day `30 * month` of the year is
/// day 1 of the month, and day `30 * month + 29` is its day 30.
pub proof fn lemma_months_have_thirty_days(year: int, month: int)
    requires
        0 <= month < 12,
    ensures
        (RepublicanDay { year, day_index: 30 * month }).is_in_month(),
        (RepublicanDay { year, day_index: 30 * month }).month() == month,
        (RepublicanDay { year, day_index: 30 * month }).day_of_month() == 1,
        (RepublicanDay { year, day_index: 30 * month + 29 }).is_in_month(),
        (RepublicanDay { year, day_index: 30 * month + 29 }).month() == month,
        (RepublicanDay { year, day_index: 30 * month + 29 }).day_of_month() == 30,
{
}

/// The first day after the twelve months reads "celebration of virtue", with
/// no weekday and no day of the month.
pub proof fn lemma_first_celebration(year: int)
    ensures
        (RepublicanDay { year, day_index: 360 }).text() == "celebration of virtue, Year "@ + roman(
            year,
        ),
{
    reveal_strlit("celebration of virtue");
    reveal_strlit(", Year ");
    reveal_strlit("celebration of virtue, Year ");
    assert("celebration of virtue"@ + ", Year "@ =~= "celebration of virtue, Year "@);
}

/// A day of the French Republican calendar.
#[derive(Clone, Copy, Debug, PartialEq, Eq)]
pub struct RepublicanDate {
    year: i32,
    day_index: u32,
}

impl View for RepublicanDate {
    type V = RepublicanDay;

    closed spec fn view(&self) -> RepublicanDay {
        RepublicanDay { year: self.year as int, day_index: self.day_index as int }
    }
}

impl RepublicanDate {
    /// Every date is the Republican day of a supported Gregorian day.
    #[verifier::type_invariant]
    pub open spec fn is_converted(self) -> bool {
        exists|date: CivilDate| date.is_supported() && self@ == #[trigger] to_republican(date)
    }

    /// The year, counted from the autumn of 1792, which begins year 1.
    pub fn year(&self) -> (year: i32)
        ensures
            year == self@.year,
    {
        self.year
    }

    /// The day of the year, counted from the Republican new year, which is
    /// day 0.
    pub fn day_index(&self) -> (day_index: u32)
        ensures
            day_index == self@.day_index,
            day_index <= 365,
    {
        proof {
            use_type_invariant(self);
            self.lemma_within_year();
        }
        self.day_index
    }

    /// Every date lies within the 366 days that a Republican year can have.
    pub proof fn lemma_within_year(self)
        requires
            self.is_converted(),
        ensures
            0 <= self@.day_index <= 365,
    {
        let date = choose|date: CivilDate|
            date.is_supported() && self@ == #[trigger] to_republican(date);
        lemma_day_index_bounds(date);
    }

    /// The date in words, such as "décadi 20 Messidor, Year CCXXXI".
    pub fn format(&self) -> (text: String)
        ensures
            text@ == self@.text(),
    {
        proof {
            use_type_invariant(self);
            self.lemma_within_year();
        }
        let mut text = String::new();
        if self.day_index < 360 {
            let month_index = self.day_index / 30;
            let day = self.day_index % 30 + 1;
            text.append(weekday(self.day_index % 10));
            text.append(" ");
            text.append(decimal_numeral(day).as_str());
            text.append(" ");
            text.append(month(month_index));
        } else {
            text.append(celebration(self.day_index - 360));
        }
        text.append(", Year ");
        text.append(roman_numeral(self.year).as_str());
        text
    }
}

impl From<GregorianDate> for RepublicanDate {
    fn from(value: GregorianDate) -> (date: RepublicanDate)
        ensures
            date@ == to_republican(value@),
    {
        proof {
            use_type_invariant(&value);
        }
        let own = GregorianDate::new(value.year(), 9, 22).unwrap();
        let new_years_year = if value.is_before(&own) {
            value.year() - 1
        } else {
            value.year()
        };
        let year = new_years_year - 1791;
        let first = GregorianDate::new(new_years_year, 9, 22).unwrap();
        let days = days_between(&first, &value).unwrap();
        proof {
            lemma_day_index_bounds(value@);
        }
        RepublicanDate { year, day_index: days as u32 }
    }
}

impl vstd::std_specs::convert::FromSpecImpl<GregorianDate> for RepublicanDate {
    open spec fn obeys_from_spec() -> bool {
        true
    }

    closed spec fn from_spec(value: GregorianDate) -> RepublicanDate {
        RepublicanDate {
            year: to_republican(value@).year as i32,
            day_index: to_republican(value@).day_index as u32,
        }
    }
}

/// Conversion depends on the day alone: two dates that are the same day
/// convert to the same Republican date, the one that `to_republican` gives.
pub proof fn lemma_conversion_is_deterministic(first: GregorianDate, second: GregorianDate)
    requires
        first.is_supported(),
        second.is_supported(),
        first@ == second@,
    ensures
        RepublicanDate::from_spec(first) == RepublicanDate::from_spec(second),
        RepublicanDate::from_spec(first)@ == to_republican(first@),
{
    lemma_day_index_bounds(first@);
}

} // verus!
