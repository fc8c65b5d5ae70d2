//! Decimal text of integers.
use vstd::prelude::*;
use vstd::string::*;

verus! {

/// The character of a decimal digit.
pub open spec fn digit_char(d: int) -> char {
    if d == 0 {
        '0'
    } else if d == 1 {
        '1'
    } else if d == 2 {
        '2'
    } else if d == 3 {
        '3'
    } else if d == 4 {
        '4'
    } else if d == 5 {
        '5'
    } else if d == 6 {
        '6'
    } else if d == 7 {
        '7'
    } else if d == 8 {
        '8'
    } else {
        '9'
    }
}

/// The decimal digits of `n`, without leading zeros.
pub open spec fn nat_text(n: nat) -> Seq<char>
    decreases n,
{
    if n < 10 {
        seq![digit_char(n as int)]
    } else {
        nat_text(n / 10).push(digit_char(n as int % 10))
    }
}

/// The decimal text of `v`, with a `-` before a negative value.
pub open spec fn decimal_text(v: int) -> Seq<char> {
    if v < 0 {
        seq!['-'] + nat_text((-v) as nat)
    } else {
        nat_text(v as nat)
    }
}

/// The text of one digit.
pub fn digit_str(d: u64) -> (r: &'static str)
    requires
        d < 10,
    ensures
        r@ == seq![digit_char(d as int)],
{
    proof {
        reveal_strlit("0");
        reveal_strlit("1");
        reveal_strlit("2");
        reveal_strlit("3");
        reveal_strlit("4");
        reveal_strlit("5");
        reveal_strlit("6");
        reveal_strlit("7");
        reveal_strlit("8");
        reveal_strlit("9");
    }
    if d == 0 {
        "0"
    } else if d == 1 {
        "1"
    } else if d == 2 {
        "2"
    } else if d == 3 {
        "3"
    } else if d == 4 {
        "4"
    } else if d == 5 {
        "5"
    } else if d == 6 {
        "6"
    } else if d == 7 {
        "7"
    } else if d == 8 {
        "8"
    } else {
        "9"
    }
}

/// The decimal digits of `n`.
pub fn nat_decimal(n: u64) -> (r: String)
    ensures
        r@ == nat_text(n as nat),
    decreases n,
{
    if n < 10 {
        digit_str(n).to_owned()
    } else {
        let head = nat_decimal(n / 10);
        head.concat(digit_str(n % 10))
    }
}

/// The decimal text of `v`.
pub fn decimal(v: i64) -> (r: String)
    requires
        v > i64::MIN,
    ensures
        r@ == decimal_text(v as int),
{
    if v < 0 {
        proof {
            reveal_strlit("-");
        }
        "-".to_owned().concat(nat_decimal((-v) as u64).as_str())
    } else {
        nat_decimal(v as u64)
    }
}

/// The digits of a fraction of thousandths `f` in `1..1000` after the
/// decimal point, without trailing zeros.
pub open spec fn fraction_text(f: int) -> Seq<char> {
    let d1 = digit_char(f / 100);
    let d2 = digit_char((f / 10) % 10);
    let d3 = digit_char(f % 10);
    if f % 10 != 0 {
        seq![d1, d2, d3]
    } else if (f / 10) % 10 != 0 {
        seq![d1, d2]
    } else {
        seq![d1]
    }
}

/// The decimal text of `v` thousandths: the whole part, then a point and the
/// fraction without trailing zeros when there is one.
pub open spec fn milli_text(v: nat) -> Seq<char> {
    if v % 1000 == 0 {
        nat_text(v / 1000)
    } else {
        nat_text(v / 1000) + seq!['.'] + fraction_text(v as int % 1000)
    }
}

/// The decimal text of `v` thousandths.
pub fn milli_decimal(v: u64) -> (r: String)
    ensures
        r@ == milli_text(v as nat),
{
    let whole = nat_decimal(v / 1000);
    let f = v % 1000;
    if f == 0 {
        return whole;
    }
    proof {
        reveal_strlit(".");
    }
    let mut out = whole.concat(".").concat(digit_str(f / 100));
    if f % 10 != 0 {
        out = out.concat(digit_str((f / 10) % 10)).concat(digit_str(f % 10));
    } else if (f / 10) % 10 != 0 {
        out = out.concat(digit_str((f / 10) % 10));
    }
    out
}

} // verus!
