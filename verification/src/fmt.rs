//! Verified decimal formatting of fixed-point amounts.
//!
//! Amounts are rendered with two decimal places (rounding half away
//! from zero, as a display rounding should), digit by digit, with an
//! exact specification of the produced character sequence.

use vstd::prelude::*;
use vstd::string::StringExecFns;

verus! {

/// The decimal digit character for a value in `[0, 9]`.
pub open spec fn digit_char(d: int) -> char {
    if d == 0 {
        '0'
    } else if d == 1 {
        '1'
    } else if d == 2 {
        '2'
    } else if d == 3 {
        '3'
    } else if d == 4 {
        '4'
    } else if d == 5 {
        '5'
    } else if d == 6 {
        '6'
    } else if d == 7 {
        '7'
    } else if d == 8 {
        '8'
    } else {
        '9'
    }
}

/// Decimal digits of a natural number, most significant first.
pub open spec fn dec_digits(n: nat) -> Seq<char>
    decreases n,
{
    if n < 10 {
        seq![digit_char(n as int)]
    } else {
        dec_digits(n / 10).push(digit_char((n % 10) as int))
    }
}

/// The amount in whole cents: the fixed-point value divided by one
/// hundred, rounded half away from zero.
pub open spec fn cents_of(v: int) -> int {
    if v >= 0 {
        (v + 50) / 100
    } else {
        -((-v + 50) / 100)
    }
}

/// The rendered amount: optional minus sign, the whole currency
/// units, a decimal point, and exactly two cent digits.
pub open spec fn spec_money_string(v: int) -> Seq<char> {
    let cents = cents_of(v);
    let magnitude = if cents >= 0 {
        cents
    } else {
        -cents
    };
    let sign: Seq<char> = if cents < 0 {
        seq!['-']
    } else {
        Seq::<char>::empty()
    };
    sign + dec_digits((magnitude / 100) as nat) + seq!['.'] + seq![
        digit_char((magnitude % 100) / 10),
        digit_char((magnitude % 100) % 10),
    ]
}

/// The rendered amount followed by the ruble sign.
pub open spec fn spec_money_rub(v: int) -> Seq<char> {
    spec_money_string(v) + " ₽"@
}

/// One decimal digit as a string.
fn digit_str(d: u128) -> (r: &'static str)
    requires
        d < 10,
    ensures
        r@ =~= seq![digit_char(d as int)],
{
    proof {
        reveal_strlit("0");
        reveal_strlit("1");
        reveal_strlit("2");
        reveal_strlit("3");
        reveal_strlit("4");
        reveal_strlit("5");
        reveal_strlit("6");
        reveal_strlit("7");
        reveal_strlit("8");
        reveal_strlit("9");
    }
    if d == 0 {
        "0"
    } else if d == 1 {
        "1"
    } else if d == 2 {
        "2"
    } else if d == 3 {
        "3"
    } else if d == 4 {
        "4"
    } else if d == 5 {
        "5"
    } else if d == 6 {
        "6"
    } else if d == 7 {
        "7"
    } else if d == 8 {
        "8"
    } else {
        "9"
    }
}

/// The digit characters of the collected low-order digits, read back
/// in display order.
spec fn collected_chars(digits: Seq<u8>) -> Seq<char> {
    digits.map_values(|d: u8| digit_char(d as int)).reverse()
}

/// Render a natural number in decimal.
fn format_u128(n: u128) -> (r: String)
    ensures
        r@ == dec_digits(n as nat),
{
    if n == 0 {
        let zero: String = String::from_str("0");
        proof {
            reveal_strlit("0");
            assert(zero@ =~= dec_digits(0));
        }
        return zero;
    }
    let mut digits: Vec<u8> = Vec::new();
    let mut x: u128 = n;
    while x > 0
        invariant
            n > 0,
            forall|k: int| 0 <= k < digits@.len() ==> #[trigger] digits@[k] < 10,
            x > 0 ==> dec_digits(n as nat) =~= dec_digits(x as nat) + collected_chars(digits@),
            x == 0 ==> dec_digits(n as nat) =~= collected_chars(digits@),
        decreases x,
    {
        let ghost old_x: int = x as int;
        let ghost old_digits: Seq<u8> = digits@;
        let d: u128 = x % 10;
        digits.push(d as u8);
        x = x / 10;
        proof {
            assert(collected_chars(old_digits.push((old_x % 10) as u8)) =~= seq![
                digit_char(old_x % 10),
            ] + collected_chars(old_digits));
            if old_x < 10 {
                assert(dec_digits(old_x as nat) =~= seq![digit_char(old_x)]);
            }
        }
    }
    let total: usize = digits.len();
    let mut out: String = String::new();
    let mut i: usize = total;
    while i > 0
        invariant
            i <= total,
            total == digits@.len(),
            forall|k: int| 0 <= k < digits@.len() ==> #[trigger] digits@[k] < 10,
            dec_digits(n as nat) =~= collected_chars(digits@),
            out@ =~= collected_chars(digits@).take((total - i) as int),
        decreases i,
    {
        i = i - 1;
        let piece: &'static str = digit_str(digits[i] as u128);
        out.append(piece);
        proof {
            assert(out@ =~= collected_chars(digits@).take((total - i) as int));
        }
    }
    proof {
        assert(out@ =~= collected_chars(digits@));
    }
    out
}

/// Render a fixed-point amount with two decimal places, rounding
/// half away from zero.
pub fn format_fixed(v: i128) -> (r: String)
    requires
        v > i128::MIN,
    ensures
        r@ == spec_money_string(v as int),
{
    let negative: bool = v < 0;
    let magnitude: u128 = if v >= 0 {
        v as u128
    } else {
        (-v) as u128
    };
    let cents: u128 = (magnitude + 50) / 100;
    let whole: u128 = cents / 100;
    let frac: u128 = cents % 100;
    let mut out: String = String::new();
    if negative && cents > 0 {
        out.append("-");
        proof {
            reveal_strlit("-");
        }
    }
    let whole_str: String = format_u128(whole);
    out.append(whole_str.as_str());
    out.append(".");
    let d1: &'static str = digit_str(frac / 10);
    out.append(d1);
    let d0: &'static str = digit_str(frac % 10);
    out.append(d0);
    proof {
        reveal_strlit(".");
        let cents_spec: int = cents_of(v as int);
        if v >= 0 {
            assert(cents == cents_spec);
        } else {
            assert(cents == -cents_spec);
        }
        if negative && cents > 0 {
            assert(cents_spec < 0);
            assert(out@ =~= spec_money_string(v as int));
        } else {
            assert(cents_spec >= 0);
            assert(out@ =~= spec_money_string(v as int));
        }
    }
    out
}

/// Render a fixed-point amount as Russian rubles.
pub fn format_rub_fixed(v: i128) -> (r: String)
    requires
        v > i128::MIN,
    ensures
        r@ == spec_money_rub(v as int),
{
    let mut out: String = format_fixed(v);
    out.append(" ₽");
    proof {
        reveal_strlit(" ₽");
    }
    out
}

} // verus!
