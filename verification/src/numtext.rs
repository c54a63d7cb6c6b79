//! Rendering of integer results as single-line decimal text, used when a
//! command's return value is forwarded to the output sink.
use vstd::prelude::*;

verus! {

/// The decimal digit character for a value below ten.
pub open spec fn spec_digit_char(d: nat) -> char {
    if d == 0 {
        '0'
    } else if d == 1 {
        '1'
    } else if d == 2 {
        '2'
    } else if d == 3 {
        '3'
    } else if d == 4 {
        '4'
    } else if d == 5 {
        '5'
    } else if d == 6 {
        '6'
    } else if d == 7 {
        '7'
    } else if d == 8 {
        '8'
    } else {
        '9'
    }
}

/// The decimal digits of a natural number, most significant first.
pub open spec fn spec_digits(n: nat) -> Seq<char>
    decreases n,
{
    if n < 10 {
        seq![spec_digit_char(n)]
    } else {
        spec_digits(n / 10).push(spec_digit_char(n % 10))
    }
}

/// The decimal rendering of an integer: the digits of its magnitude,
/// preceded by a minus sign when it is negative.
pub open spec fn spec_int_text(i: int) -> Seq<char> {
    if i < 0 {
        seq!['-'] + spec_digits((-i) as nat)
    } else {
        spec_digits(i as nat)
    }
}

/// The one-character string for a decimal digit.
fn digit_str(d: u64) -> (r: &'static str)
    requires
        d < 10,
    ensures
        r@ == seq![spec_digit_char(d as nat)],
{
    proof {
        reveal_strlit("0");
        reveal_strlit("1");
        reveal_strlit("2");
        reveal_strlit("3");
        reveal_strlit("4");
        reveal_strlit("5");
        reveal_strlit("6");
        reveal_strlit("7");
        reveal_strlit("8");
        reveal_strlit("9");
    }
    let r: &'static str = if d == 0 {
        "0"
    } else if d == 1 {
        "1"
    } else if d == 2 {
        "2"
    } else if d == 3 {
        "3"
    } else if d == 4 {
        "4"
    } else if d == 5 {
        "5"
    } else if d == 6 {
        "6"
    } else if d == 7 {
        "7"
    } else {
        "8"
    };
    if d == 9 {
        let nine: &'static str = "9";
        assert(nine@ =~= seq![spec_digit_char(d as nat)]);
        return nine;
    }
    assert(r@ =~= seq![spec_digit_char(d as nat)]);
    r
}

/// The decimal digits of `n`, most significant first.
fn digits_text(n: u64) -> (r: String)
    ensures
        r@ == spec_digits(n as nat),
    decreases n,
{
    if n < 10 {
        let s = digit_str(n);
        let r = s.to_owned();
        assert(r@ =~= spec_digits(n as nat));
        r
    } else {
        let mut r = digits_text(n / 10);
        r.append(digit_str(n % 10));
        assert(r@ =~= spec_digits(n as nat));
        r
    }
}

/// Renders an integer as decimal text, one line, no padding.
pub fn int_text(i: i32) -> (r: String)
    ensures
        r@ == spec_int_text(i as int),
{
    if i >= 0 {
        let r = digits_text(i as u64);
        assert(r@ =~= spec_int_text(i as int));
        r
    } else {
        let wide: i64 = i as i64;
        let mag: u64 = (-wide) as u64;
        assert(mag as nat == (-(i as int)) as nat);
        proof {
            reveal_strlit("-");
        }
        let mut r = String::new();
        r.append("-");
        let d = digits_text(mag);
        r.append(d.as_str());
        assert(r@ =~= spec_int_text(i as int));
        r
    }
}

} // verus!
