//! The text that stands for a scalar value in a file name.

use crate::data::{Datum, DatumView};
use vstd::prelude::*;

verus! {

/// The character of a decimal digit.
pub open spec fn digit(d: int) -> char {
    if d == 0 {
        '0'
    } else if d == 1 {
        '1'
    } else if d == 2 {
        '2'
    } else if d == 3 {
        '3'
    } else if d == 4 {
        '4'
    } else if d == 5 {
        '5'
    } else if d == 6 {
        '6'
    } else if d == 7 {
        '7'
    } else if d == 8 {
        '8'
    } else {
        '9'
    }
}

/// The decimal notation of a natural number, without leading zeros.
pub open spec fn decimal_nat(n: nat) -> Seq<char>
    decreases n,
{
    if n < 10 {
        seq![digit(n as int)]
    } else {
        decimal_nat(n / 10).push(digit((n % 10) as int))
    }
}

/// The decimal notation of an integer, with a minus sign where it is
/// negative.
pub open spec fn decimal(i: int) -> Seq<char> {
    if i < 0 {
        seq!['-'] + decimal_nat((-i) as nat)
    } else {
        decimal_nat(i as nat)
    }
}

/// The text of a scalar: a string as it is, a number in decimal notation, a
/// boolean as `true` or `false`. A table or an array has the empty text.
pub open spec fn scalar_text(v: DatumView) -> Seq<char> {
    match v {
        DatumView::Text(s) => s,
        DatumView::Integer(i) => decimal(i),
        DatumView::Real(s) => s,
        DatumView::Boolean(b) => if b {
            "true"@
        } else {
            "false"@
        },
        DatumView::Datetime(s) => s,
        _ => Seq::empty(),
    }
}

fn digit_text(d: u64) -> (text: &'static str)
    requires
        d < 10,
    ensures
        text@ == seq![digit(d as int)],
{
    proof {
        reveal_strlit("0");
        reveal_strlit("1");
        reveal_strlit("2");
        reveal_strlit("3");
        reveal_strlit("4");
        reveal_strlit("5");
        reveal_strlit("6");
        reveal_strlit("7");
        reveal_strlit("8");
        reveal_strlit("9");
    }
    let text = if d == 0 {
        "0"
    } else if d == 1 {
        "1"
    } else if d == 2 {
        "2"
    } else if d == 3 {
        "3"
    } else if d == 4 {
        "4"
    } else if d == 5 {
        "5"
    } else if d == 6 {
        "6"
    } else if d == 7 {
        "7"
    } else if d == 8 {
        "8"
    } else {
        "9"
    };
    assert(text@ =~= seq![digit(d as int)]);
    text
}

fn decimal_of_u64(n: u64) -> (text: String)
    ensures
        text@ == decimal_nat(n as nat),
    decreases n,
{
    if n < 10 {
        String::from_str(digit_text(n))
    } else {
        let text = decimal_of_u64(n / 10).concat(digit_text(n % 10));
        assert(text@ =~= decimal_nat((n / 10) as nat).push(digit((n % 10) as int)));
        text
    }
}

/// The decimal notation of `i`.
pub fn decimal_of(i: i64) -> (text: String)
    ensures
        text@ == decimal(i as int),
{
    if i < 0 {
        let magnitude: u64 = if i == i64::MIN {
            9223372036854775808u64
        } else {
            (-i) as u64
        };
        proof {
            reveal_strlit("-");
            assert("-"@ =~= seq!['-']);
        }
        String::from_str("-").concat(decimal_of_u64(magnitude).as_str())
    } else {
        decimal_of_u64(i as u64)
    }
}

/// The text of the scalar `v`; the empty text for a table or an array.
pub fn scalar_text_of(v: &Datum) -> (text: String)
    ensures
        text@ == scalar_text(v@),
{
    match v {
        Datum::Text(s) => s.clone(),
        Datum::Integer(i) => decimal_of(*i),
        Datum::Real(s) => s.clone(),
        Datum::Boolean(b) => if *b {
            String::from_str("true")
        } else {
            String::from_str("false")
        },
        Datum::Datetime(s) => s.clone(),
        _ => String::new(),
    }
}

} // verus!
