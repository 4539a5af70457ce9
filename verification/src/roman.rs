//! Roman numerals, in which the years are written.

use vstd::arithmetic::div_mod::lemma_mod_mod;
use vstd::prelude::*;
use vstd::string::*;

verus! {

/// The value of numeral symbol `rank`; the thirteen symbols are ranked from
/// the greatest value, rank 0, down to the smallest, rank 12.
pub open spec fn symbol_value(rank: int) -> int {
    if rank == 0 {
        1000
    } else if rank == 1 {
        900
    } else if rank == 2 {
        500
    } else if rank == 3 {
        400
    } else if rank == 4 {
        100
    } else if rank == 5 {
        90
    } else if rank == 6 {
        50
    } else if rank == 7 {
        40
    } else if rank == 8 {
        10
    } else if rank == 9 {
        9
    } else if rank == 10 {
        5
    } else if rank == 11 {
        4
    } else {
        1
    }
}

/// The letters of numeral symbol `rank`.
pub open spec fn symbol_text(rank: int) -> Seq<char> {
    if rank == 0 {
        "M"@
    } else if rank == 1 {
        "CM"@
    } else if rank == 2 {
        "D"@
    } else if rank == 3 {
        "CD"@
    } else if rank == 4 {
        "C"@
    } else if rank == 5 {
        "XC"@
    } else if rank == 6 {
        "L"@
    } else if rank == 7 {
        "XL"@
    } else if rank == 8 {
        "X"@
    } else if rank == 9 {
        "IX"@
    } else if rank == 10 {
        "V"@
    } else if rank == 11 {
        "IV"@
    } else {
        "I"@
    }
}

/// The rank of the symbol of greatest value that does not exceed `n`, for
/// `n` of 1 or more.
pub open spec fn leading_symbol(n: int) -> int {
    if n >= 1000 {
        0
    } else if n >= 900 {
        1
    } else if n >= 500 {
        2
    } else if n >= 400 {
        3
    } else if n >= 100 {
        4
    } else if n >= 90 {
        5
    } else if n >= 50 {
        6
    } else if n >= 40 {
        7
    } else if n >= 10 {
        8
    } else if n >= 9 {
        9
    } else if n >= 5 {
        10
    } else if n >= 4 {
        11
    } else {
        12
    }
}

/// The Roman numeral of `n`: the symbol of greatest value that does not
/// exceed `n`, followed by the numeral of what is left of `n` without that
/// value. Zero and the negative numbers have the empty numeral.
pub open spec fn roman(n: int) -> Seq<char>
    decreases n,
{
    if n <= 0 {
        Seq::empty()
    } else {
        symbol_text(leading_symbol(n)) + roman(n - symbol_value(leading_symbol(n)))
    }
}

/// The letter M, `count` times.
pub open spec fn thousands_text(count: int) -> Seq<char>
    decreases count,
{
    if count <= 0 {
        Seq::empty()
    } else {
        "M"@ + thousands_text(count - 1)
    }
}

/// The letters that stand for `digit` hundreds, for the digits 0 to 9.
pub open spec fn hundreds_text(digit: int) -> Seq<char> {
    if digit == 0 {
        Seq::empty()
    } else if digit == 1 {
        "C"@
    } else if digit == 2 {
        "CC"@
    } else if digit == 3 {
        "CCC"@
    } else if digit == 4 {
        "CD"@
    } else if digit == 5 {
        "D"@
    } else if digit == 6 {
        "DC"@
    } else if digit == 7 {
        "DCC"@
    } else if digit == 8 {
        "DCCC"@
    } else {
        "CM"@
    }
}

/// The letters that stand for `digit` tens, for the digits 0 to 9.
pub open spec fn tens_text(digit: int) -> Seq<char> {
    if digit == 0 {
        Seq::empty()
    } else if digit == 1 {
        "X"@
    } else if digit == 2 {
        "XX"@
    } else if digit == 3 {
        "XXX"@
    } else if digit == 4 {
        "XL"@
    } else if digit == 5 {
        "L"@
    } else if digit == 6 {
        "LX"@
    } else if digit == 7 {
        "LXX"@
    } else if digit == 8 {
        "LXXX"@
    } else {
        "XC"@
    }
}

/// The letters that stand for `digit` units, for the digits 0 to 9.
pub open spec fn units_text(digit: int) -> Seq<char> {
    if digit == 0 {
        Seq::empty()
    } else if digit == 1 {
        "I"@
    } else if digit == 2 {
        "II"@
    } else if digit == 3 {
        "III"@
    } else if digit == 4 {
        "IV"@
    } else if digit == 5 {
        "V"@
    } else if digit == 6 {
        "VI"@
    } else if digit == 7 {
        "VII"@
    } else if digit == 8 {
        "VIII"@
    } else {
        "IX"@
    }
}

/// The letters of the hundreds, from one digit to the next.
proof fn lemma_hundreds_text()
    ensures
        hundreds_text(1) == "C"@ + hundreds_text(0),
        hundreds_text(2) == "C"@ + hundreds_text(1),
        hundreds_text(3) == "C"@ + hundreds_text(2),
        hundreds_text(4) == "CD"@ + hundreds_text(0),
        hundreds_text(5) == "D"@ + hundreds_text(0),
        hundreds_text(6) == "D"@ + hundreds_text(1),
        hundreds_text(7) == "D"@ + hundreds_text(2),
        hundreds_text(8) == "D"@ + hundreds_text(3),
        hundreds_text(9) == "CM"@ + hundreds_text(0),
{
    reveal_strlit("C");
    reveal_strlit("CC");
    reveal_strlit("CCC");
    reveal_strlit("D");
    reveal_strlit("DC");
    reveal_strlit("DCC");
    reveal_strlit("DCCC");
    assert("C"@ =~= "C"@ + Seq::<char>::empty());
    assert("CC"@ =~= "C"@ + "C"@);
    assert("CCC"@ =~= "C"@ + "CC"@);
    assert("CD"@ =~= "CD"@ + Seq::<char>::empty());
    assert("D"@ =~= "D"@ + Seq::<char>::empty());
    assert("DC"@ =~= "D"@ + "C"@);
    assert("DCC"@ =~= "D"@ + "CC"@);
    assert("DCCC"@ =~= "D"@ + "CCC"@);
    assert("CM"@ =~= "CM"@ + Seq::<char>::empty());
}

/// The letters of the tens, from one digit to the next.
proof fn lemma_tens_text()
    ensures
        tens_text(1) == "X"@ + tens_text(0),
        tens_text(2) == "X"@ + tens_text(1),
        tens_text(3) == "X"@ + tens_text(2),
        tens_text(4) == "XL"@ + tens_text(0),
        tens_text(5) == "L"@ + tens_text(0),
        tens_text(6) == "L"@ + tens_text(1),
        tens_text(7) == "L"@ + tens_text(2),
        tens_text(8) == "L"@ + tens_text(3),
        tens_text(9) == "XC"@ + tens_text(0),
{
    reveal_strlit("X");
    reveal_strlit("XX");
    reveal_strlit("XXX");
    reveal_strlit("L");
    reveal_strlit("LX");
    reveal_strlit("LXX");
    reveal_strlit("LXXX");
    assert("X"@ =~= "X"@ + Seq::<char>::empty());
    assert("XX"@ =~= "X"@ + "X"@);
    assert("XXX"@ =~= "X"@ + "XX"@);
    assert("XL"@ =~= "XL"@ + Seq::<char>::empty());
    assert("L"@ =~= "L"@ + Seq::<char>::empty());
    assert("LX"@ =~= "L"@ + "X"@);
    assert("LXX"@ =~= "L"@ + "XX"@);
    assert("LXXX"@ =~= "L"@ + "XXX"@);
    assert("XC"@ =~= "XC"@ + Seq::<char>::empty());
}

/// The letters of the units, from one digit to the next.
proof fn lemma_units_text()
    ensures
        units_text(1) == "I"@ + units_text(0),
        units_text(2) == "I"@ + units_text(1),
        units_text(3) == "I"@ + units_text(2),
        units_text(4) == "IV"@ + units_text(0),
        units_text(5) == "V"@ + units_text(0),
        units_text(6) == "V"@ + units_text(1),
        units_text(7) == "V"@ + units_text(2),
        units_text(8) == "V"@ + units_text(3),
        units_text(9) == "IX"@ + units_text(0),
{
    reveal_strlit("I");
    reveal_strlit("II");
    reveal_strlit("III");
    reveal_strlit("V");
    reveal_strlit("VI");
    reveal_strlit("VII");
    reveal_strlit("VIII");
    assert("I"@ =~= "I"@ + Seq::<char>::empty());
    assert("II"@ =~= "I"@ + "I"@);
    assert("III"@ =~= "I"@ + "II"@);
    assert("IV"@ =~= "IV"@ + Seq::<char>::empty());
    assert("V"@ =~= "V"@ + Seq::<char>::empty());
    assert("VI"@ =~= "V"@ + "I"@);
    assert("VII"@ =~= "V"@ + "II"@);
    assert("VIII"@ =~= "V"@ + "III"@);
    assert("IX"@ =~= "IX"@ + Seq::<char>::empty());
}

/// The numeral of a number below ten is the letters of its units.
proof fn lemma_roman_below_ten(n: int)
    requires
        0 <= n < 10,
    ensures
        roman(n) == units_text(n),
    decreases n,
{
    lemma_units_text();
    if n == 0 {
    } else if n == 9 || n == 4 {
        assert(roman(0) =~= units_text(0));
    } else if n >= 5 {
        lemma_roman_below_ten(n - 5);
    } else {
        lemma_roman_below_ten(n - 1);
    }
}

/// The numeral of a number below a hundred is the letters of its tens, then
/// those of its units.
proof fn lemma_roman_below_hundred(n: int)
    requires
        0 <= n < 100,
    ensures
        roman(n) == tens_text(n / 10) + units_text(n % 10),
    decreases n,
{
    let units = units_text(n % 10);
    if n < 10 {
        lemma_roman_below_ten(n);
        assert(units =~= tens_text(0) + units);
    } else {
        lemma_tens_text();
        let head = symbol_text(leading_symbol(n));
        let rest = n - symbol_value(leading_symbol(n));
        lemma_roman_below_hundred(rest);
        assert(rest % 10 == n % 10);
        assert(tens_text(n / 10) == head + tens_text(rest / 10));
        assert(head + (tens_text(rest / 10) + units) =~= (head + tens_text(rest / 10)) + units);
    }
}

/// The numeral of a number below a thousand is the letters of its hundreds,
/// then the numeral of what is left below a hundred.
proof fn lemma_roman_below_thousand(n: int)
    requires
        0 <= n < 1000,
    ensures
        roman(n) == hundreds_text(n / 100) + roman(n % 100),
    decreases n,
{
    if n < 100 {
        assert(roman(n) =~= hundreds_text(0) + roman(n));
    } else {
        lemma_hundreds_text();
        let head = symbol_text(leading_symbol(n));
        let rest = n - symbol_value(leading_symbol(n));
        lemma_roman_below_thousand(rest);
        assert(rest % 100 == n % 100);
        assert(hundreds_text(n / 100) == head + hundreds_text(rest / 100));
        assert(head + (hundreds_text(rest / 100) + roman(n % 100)) =~= (head + hundreds_text(
            rest / 100,
        )) + roman(n % 100));
    }
}

/// The numeral of a number is an M for each of its thousands, then the
/// numeral of what is left below a thousand.
proof fn lemma_roman_thousands(n: int)
    requires
        0 <= n,
    ensures
        roman(n) == thousands_text(n / 1000) + roman(n % 1000),
    decreases n,
{
    if n < 1000 {
        assert(roman(n) =~= thousands_text(0) + roman(n));
    } else {
        let rest = n - 1000;
        lemma_roman_thousands(rest);
        assert(rest / 1000 == n / 1000 - 1 && rest % 1000 == n % 1000);
        assert("M"@ + (thousands_text(rest / 1000) + roman(n % 1000)) =~= ("M"@ + thousands_text(
            rest / 1000,
        )) + roman(n % 1000));
    }
}

/// A Roman numeral reads place by place: an M for each thousand, then the
/// letters of the hundreds, of the tens and of the units.
pub proof fn lemma_roman_by_place(n: int)
    requires
        0 <= n,
    ensures
        roman(n) == thousands_text(n / 1000) + hundreds_text(n % 1000 / 100) + tens_text(
            n % 100 / 10,
        ) + units_text(n % 10),
{
    let low = n % 1000;
    assert(low % 100 == n % 100 && low % 100 % 10 == n % 10) by {
        lemma_mod_mod(n, 100, 10);
        lemma_mod_mod(n, 10, 10);
    }
    let thousands = thousands_text(n / 1000);
    let hundreds = hundreds_text(low / 100);
    let tens = tens_text(low % 100 / 10);
    let units = units_text(low % 100 % 10);
    assert(roman(n) == thousands + roman(low)) by {
        lemma_roman_thousands(n);
    }
    assert(roman(low) == hundreds + roman(low % 100)) by {
        lemma_roman_below_thousand(low);
    }
    assert(roman(low % 100) == tens + units) by {
        lemma_roman_below_hundred(low % 100);
    }
    assert(thousands + (hundreds + (tens + units)) =~= thousands + hundreds + tens + units);
}

/// Numeral symbol `rank`: its letters and its value.
fn symbol(rank: usize) -> (pair: (&'static str, i32))
    requires
        rank < 13,
    ensures
        pair.0@ == symbol_text(rank as int),
        pair.1 == symbol_value(rank as int),
{
    match rank {
        0 => ("M", 1000),
        1 => ("CM", 900),
        2 => ("D", 500),
        3 => ("CD", 400),
        4 => ("C", 100),
        5 => ("XC", 90),
        6 => ("L", 50),
        7 => ("XL", 40),
        8 => ("X", 10),
        9 => ("IX", 9),
        10 => ("V", 5),
        11 => ("IV", 4),
        _ => ("I", 1),
    }
}

/// The Roman numeral of `n`, in capital letters.
pub fn roman_numeral(n: i32) -> (numeral: String)
    ensures
        numeral@ == roman(n as int),
{
    let mut numeral = String::new();
    let mut rest: i32 = n;
    let mut rank: usize = 0;
    while rank < 13
        invariant
            rank <= 13,
            rank > 0 ==> rest < symbol_value(rank - 1),
            numeral@ + roman(rest as int) == roman(n as int),
        decreases 13 - rank,
    {
        let (text, value) = symbol(rank);
        while rest >= value
            invariant
                rank < 13,
                value == symbol_value(rank as int),
                text@ == symbol_text(rank as int),
                rank > 0 ==> rest < symbol_value(rank - 1),
                numeral@ + roman(rest as int) == roman(n as int),
            decreases rest,
        {
            proof {
                assert(numeral@ + (text@ + roman(rest - value)) == (numeral@ + text@) + roman(
                    rest - value,
                ));
            }
            numeral.append(text);
            rest = rest - value;
        }
        rank = rank + 1;
    }
    assert(numeral@ + Seq::<char>::empty() == numeral@);
    numeral
}

} // verus!
