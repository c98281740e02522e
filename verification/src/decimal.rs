//! Decimal text of natural numbers, as passcodes and positions are shown.

use vstd::prelude::*;
use vstd::string::StringExecFns;

verus! {

/// The character of one decimal digit. Whatever is not a digit below nine
/// is written as a nine.
pub open spec fn digit_char(d: int) -> char {
    if d == 0 {
        '0'
    } else if d == 1 {
        '1'
    } else if d == 2 {
        '2'
    } else if d == 3 {
        '3'
    } else if d == 4 {
        '4'
    } else if d == 5 {
        '5'
    } else if d == 6 {
        '6'
    } else if d == 7 {
        '7'
    } else if d == 8 {
        '8'
    } else {
        '9'
    }
}

/// Whether `c` is one of the ten decimal digits.
pub open spec fn is_digit(c: char) -> bool {
    exists|d: int| 0 <= d <= 9 && c == #[trigger] digit_char(d)
}

/// The decimal text of `n`, without sign or leading zeros.
pub open spec fn decimal(n: nat) -> Seq<char>
    decreases n,
{
    if n < 10 {
        seq![digit_char(n as int)]
    } else {
        decimal(n / 10).push(digit_char((n % 10) as int))
    }
}

/// The digits `ds`, given least significant first, as text with the most
/// significant first.
pub open spec fn digits_text(ds: Seq<u8>) -> Seq<char> {
    Seq::new(ds.len(), |i: int| digit_char(ds[ds.len() - 1 - i] as int))
}

/// The text of one digit: see [`digit_char`].
pub fn digit_str(d: u8) -> (text: &'static str)
    ensures
        text@ == seq![digit_char(d as int)],
{
    proof {
        reveal_strlit("0");
        reveal_strlit("1");
        reveal_strlit("2");
        reveal_strlit("3");
        reveal_strlit("4");
        reveal_strlit("5");
        reveal_strlit("6");
        reveal_strlit("7");
        reveal_strlit("8");
        reveal_strlit("9");
    }
    let text = match d {
        0 => "0",
        1 => "1",
        2 => "2",
        3 => "3",
        4 => "4",
        5 => "5",
        6 => "6",
        7 => "7",
        8 => "8",
        _ => "9",
    };
    assert(text@ =~= seq![digit_char(d as int)]);
    text
}

/// Writes `n` in decimal.
pub fn to_decimal(n: u64) -> (text: String)
    ensures
        text@ == decimal(n as nat),
{
    let mut digits: Vec<u8> = Vec::new();
    let mut rest: u64 = n;
    while rest >= 10
        invariant
            decimal(n as nat) == decimal(rest as nat) + digits_text(digits@),
        decreases rest,
    {
        let ghost before = digits@;
        digits.push((rest % 10) as u8);
        proof {
            assert(digits_text(digits@) =~= seq![digit_char((rest % 10) as int)] + digits_text(
                before,
            ));
            assert(decimal(rest as nat) == decimal((rest / 10) as nat).push(
                digit_char((rest % 10) as int),
            ));
            assert(decimal((rest / 10) as nat).push(digit_char((rest % 10) as int)) + digits_text(
                before,
            ) =~= decimal((rest / 10) as nat) + digits_text(digits@));
        }
        rest = rest / 10;
    }
    let ghost before = digits@;
    digits.push(rest as u8);
    proof {
        assert(digits_text(digits@) =~= seq![digit_char(rest as int)] + digits_text(before));
        assert(decimal(rest as nat) =~= seq![digit_char(rest as int)]);
    }
    let mut text = String::new();
    let mut left: usize = digits.len();
    while left > 0
        invariant
            left <= digits.len(),
            text@ == digits_text(digits@).take(digits.len() - left),
        decreases left,
    {
        left -= 1;
        text.append(digit_str(digits[left]));
        assert(text@ =~= digits_text(digits@).take(digits.len() - left));
    }
    assert(digits_text(digits@).take(digits.len() as int) =~= digits_text(digits@));
    text
}

/// Decimal text holds digits only.
pub proof fn lemma_decimal_is_digits(n: nat)
    ensures
        decimal(n).len() >= 1,
        forall|i: int| 0 <= i < decimal(n).len() ==> is_digit(#[trigger] decimal(n)[i]),
    decreases n,
{
    if n < 10 {
        assert(decimal(n)[0] == digit_char(n as int));
    } else {
        lemma_decimal_is_digits(n / 10);
        let d = (n % 10) as int;
        assert forall|i: int| 0 <= i < decimal(n).len() implies is_digit(
            #[trigger] decimal(n)[i],
        ) by {
            if i == decimal(n / 10).len() {
                assert(decimal(n)[i] == digit_char(d));
            } else {
                assert(decimal(n)[i] == decimal(n / 10)[i]);
            }
        }
    }
}

/// A number of six digits is written with six characters.
pub proof fn lemma_six_digits(n: nat)
    requires
        100000 <= n <= 999999,
    ensures
        decimal(n).len() == 6,
        decimal(n)[0] != '0',
{
    reveal_with_fuel(decimal, 7);
    let a = n / 10;
    let b = a / 10;
    let c = b / 10;
    let d = c / 10;
    let e = d / 10;
    assert(1 <= e <= 9);
    assert(decimal(e) =~= seq![digit_char(e as int)]);
    assert(decimal(d).len() == 2);
    assert(decimal(c).len() == 3);
    assert(decimal(b).len() == 4);
    assert(decimal(a).len() == 5);
    assert(decimal(n)[0] == decimal(e)[0]);
}

} // verus!
