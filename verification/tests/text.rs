use primidi::names::{celebration, month, weekday};
use primidi::decimal::decimal_numeral;
use primidi::roman::roman_numeral;
use primidi::{GregorianDate, RepublicanDate};

fn text_of(year: i32, month: u32, day: u32) -> String {
    RepublicanDate::from(GregorianDate::new(year, month, day).unwrap()).format()
}

#[test]
fn test_display() {
    let republican_date: RepublicanDate = GregorianDate::new(2023, 7, 8).unwrap().into();
    assert_eq!(republican_date.format(), "décadi 20 Messidor, Year CCXXXI")
}

#[test]
fn new_year_reads_primidi_1_vendemiaire() {
    assert_eq!(text_of(2022, 9, 22), "primidi 1 Vendémiaire, Year CCXXXI");
    assert_eq!(text_of(1792, 9, 22), "primidi 1 Vendémiaire, Year I");
}

#[test]
fn weekday_repeats_every_ten_days() {
    // Days 9 and 19 of the year.
    assert_eq!(text_of(2022, 10, 1), "décadi 10 Vendémiaire, Year CCXXXI");
    assert_eq!(text_of(2022, 10, 11), "décadi 20 Vendémiaire, Year CCXXXI");
    // Days 29 and 39 lie in different months.
    assert_eq!(text_of(2022, 10, 21), "décadi 30 Vendémiaire, Year CCXXXI");
    assert_eq!(text_of(2022, 10, 31), "décadi 10 Brumaire, Year CCXXXI");
}

#[test]
fn months_turn_after_thirty_days() {
    let last = RepublicanDate::from(GregorianDate::new(2022, 10, 21).unwrap());
    let first = RepublicanDate::from(GregorianDate::new(2022, 10, 22).unwrap());
    assert_eq!(last.day_index(), 29);
    assert_eq!(first.day_index(), 30);
    assert_eq!(last.format(), "décadi 30 Vendémiaire, Year CCXXXI");
    assert_eq!(first.format(), "primidi 1 Brumaire, Year CCXXXI");
}

#[test]
fn last_day_of_the_twelfth_month() {
    let day = RepublicanDate::from(GregorianDate::new(2023, 9, 16).unwrap());
    assert_eq!(day.day_index(), 359);
    assert_eq!(day.format(), "décadi 30 Fructidor, Year CCXXXI");
}

#[test]
fn celebrations_close_the_year() {
    let first = RepublicanDate::from(GregorianDate::new(2023, 9, 17).unwrap());
    assert_eq!(first.day_index(), 360);
    assert_eq!(first.format(), "celebration of virtue, Year CCXXXI");
    assert_eq!(text_of(2023, 9, 18), "celebration of talent, Year CCXXXI");
    assert_eq!(text_of(2023, 9, 19), "celebration of labour, Year CCXXXI");
    assert_eq!(text_of(2023, 9, 20), "celebration of convictions, Year CCXXXI");
    assert_eq!(text_of(2023, 9, 21), "celebration of honors, Year CCXXXI");
    assert_eq!(text_of(2024, 9, 20), "celebration of honors, Year CCXXXII");
    assert_eq!(text_of(2024, 9, 21), "celebration of the Revolution, Year CCXXXII");
}

#[test]
fn years_before_the_first_have_no_numeral() {
    assert_eq!(text_of(1791, 9, 22), "primidi 1 Vendémiaire, Year ");
    assert_eq!(text_of(1700, 9, 22), "primidi 1 Vendémiaire, Year ");
}

#[test]
fn roman_numerals_of_known_values() {
    assert_eq!(roman_numeral(231), "CCXXXI");
    assert_eq!(roman_numeral(1), "I");
    assert_eq!(roman_numeral(4), "IV");
    assert_eq!(roman_numeral(9), "IX");
    assert_eq!(roman_numeral(40), "XL");
    assert_eq!(roman_numeral(1994), "MCMXCIV");
}

#[test]
fn roman_numerals_of_each_symbol() {
    let symbols = [
        (1000, "M"),
        (900, "CM"),
        (500, "D"),
        (400, "CD"),
        (100, "C"),
        (90, "XC"),
        (50, "L"),
        (40, "XL"),
        (10, "X"),
        (9, "IX"),
        (5, "V"),
        (4, "IV"),
        (1, "I"),
    ];
    for (value, text) in symbols {
        assert_eq!(roman_numeral(value), text);
    }
    assert_eq!(roman_numeral(3888), "MMMDCCCLXXXVIII");
    assert_eq!(roman_numeral(3999), "MMMCMXCIX");
    assert_eq!(roman_numeral(5000), "MMMMM");
    assert_eq!(roman_numeral(0), "");
    assert_eq!(roman_numeral(-7), "");
}

#[test]
fn year_1994_in_a_date() {
    assert_eq!(text_of(3785, 9, 22), "primidi 1 Vendémiaire, Year MCMXCIV");
}

#[test]
fn decimal_numerals() {
    assert_eq!(decimal_numeral(0), "0");
    assert_eq!(decimal_numeral(1), "1");
    assert_eq!(decimal_numeral(9), "9");
    assert_eq!(decimal_numeral(10), "10");
    assert_eq!(decimal_numeral(30), "30");
    assert_eq!(decimal_numeral(4_294_967_295), "4294967295");
    for n in 0..1000u32 {
        assert_eq!(decimal_numeral(n), n.to_string());
    }
}

#[test]
fn names_of_the_weekdays() {
    let names = [
        "primidi", "duodi", "tridi", "quartidi", "quintidi", "sextidi", "septidi", "octidi",
        "nonidi", "décadi",
    ];
    for (index, name) in names.iter().enumerate() {
        assert_eq!(weekday(index as u32), *name);
    }
}

#[test]
fn names_of_the_months() {
    let names = [
        "Vendémiaire",
        "Brumaire",
        "Frimaire",
        "Nivôse",
        "Pluviôse",
        "Ventôse",
        "Germinal",
        "Floréal",
        "Prairial",
        "Messidor",
        "Thermidor",
        "Fructidor",
    ];
    for (index, name) in names.iter().enumerate() {
        assert_eq!(month(index as u32), *name);
    }
}

#[test]
fn names_of_the_celebrations() {
    let names = [
        "celebration of virtue",
        "celebration of talent",
        "celebration of labour",
        "celebration of convictions",
        "celebration of honors",
        "celebration of the Revolution",
    ];
    for (index, name) in names.iter().enumerate() {
        assert_eq!(celebration(index as u32), *name);
    }
}

#[test]
fn every_day_of_a_year_reads_as_its_parts() {
    let mut day = (2022, 9, 22);
    for index in 0..360u32 {
        let date = RepublicanDate::from(GregorianDate::new(day.0, day.1, day.2).unwrap());
        assert_eq!(date.day_index(), index);
        let expected = format!(
            "{} {} {}, Year CCXXXI",
            weekday(index % 10),
            index % 30 + 1,
            month(index / 30)
        );
        assert_eq!(date.format(), expected);
        day = if day.2 < primidi::gregorian::month_length(day.0, day.1) {
            (day.0, day.1, day.2 + 1)
        } else if day.1 < 12 {
            (day.0, day.1 + 1, 1)
        } else {
            (day.0 + 1, 1, 1)
        };
    }
}
