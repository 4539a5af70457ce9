//! The names of the Republican calendar: the ten days of the décade, the
//! twelve months, and the six celebrations that close the year.

use vstd::prelude::*;

verus! {

/// The name of a day of the décade; the days count from 0.
pub open spec fn weekday_name(index: int) -> Seq<char> {
    if index == 0 {
        "primidi"@
    } else if index == 1 {
        "duodi"@
    } else if index == 2 {
        "tridi"@
    } else if index == 3 {
        "quartidi"@
    } else if index == 4 {
        "quintidi"@
    } else if index == 5 {
        "sextidi"@
    } else if index == 6 {
        "septidi"@
    } else if index == 7 {
        "octidi"@
    } else if index == 8 {
        "nonidi"@
    } else {
        "décadi"@
    }
}

/// The name of a month; the months count from 0.
pub open spec fn month_name(index: int) -> Seq<char> {
    if index == 0 {
        "Vendémiaire"@
    } else if index == 1 {
        "Brumaire"@
    } else if index == 2 {
        "Frimaire"@
    } else if index == 3 {
        "Nivôse"@
    } else if index == 4 {
        "Pluviôse"@
    } else if index == 5 {
        "Ventôse"@
    } else if index == 6 {
        "Germinal"@
    } else if index == 7 {
        "Floréal"@
    } else if index == 8 {
        "Prairial"@
    } else if index == 9 {
        "Messidor"@
    } else if index == 10 {
        "Thermidor"@
    } else {
        "Fructidor"@
    }
}

/// The name of one of the days that follow the twelfth month; they count
/// from 0.
pub open spec fn celebration_name(index: int) -> Seq<char> {
    if index == 0 {
        "celebration of virtue"@
    } else if index == 1 {
        "celebration of talent"@
    } else if index == 2 {
        "celebration of labour"@
    } else if index == 3 {
        "celebration of convictions"@
    } else if index == 4 {
        "celebration of honors"@
    } else {
        "celebration of the Revolution"@
    }
}

/// The name of day `index` of the décade.
pub fn weekday(index: u32) -> (name: &'static str)
    requires
        index < 10,
    ensures
        name@ == weekday_name(index as int),
{
    match index {
        0 => "primidi",
        1 => "duodi",
        2 => "tridi",
        3 => "quartidi",
        4 => "quintidi",
        5 => "sextidi",
        6 => "septidi",
        7 => "octidi",
        8 => "nonidi",
        _ => "décadi",
    }
}

/// The name of month `index`.
pub fn month(index: u32) -> (name: &'static str)
    requires
        index < 12,
    ensures
        name@ == month_name(index as int),
{
    match index {
        0 => "Vendémiaire",
        1 => "Brumaire",
        2 => "Frimaire",
        3 => "Nivôse",
        4 => "Pluviôse",
        5 => "Ventôse",
        6 => "Germinal",
        7 => "Floréal",
        8 => "Prairial",
        9 => "Messidor",
        10 => "Thermidor",
        _ => "Fructidor",
    }
}

/// The name of celebration `index`.
pub fn celebration(index: u32) -> (name: &'static str)
    requires
        index < 6,
    ensures
        name@ == celebration_name(index as int),
{
    match index {
        0 => "celebration of virtue",
        1 => "celebration of talent",
        2 => "celebration of labour",
        3 => "celebration of convictions",
        4 => "celebration of honors",
        _ => "celebration of the Revolution",
    }
}

} // verus!
