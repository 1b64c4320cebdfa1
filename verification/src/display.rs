//! Rendering a number of seconds as an `MM:SS` label.
//!
//! Minutes and seconds are each printed with at least two digits; a minute
//! count of one hundred or more simply takes as many digits as it needs.

use vstd::prelude::*;

verus! {

/// The decimal digit character for `d`, for `0 <= d < 10`.
pub open spec fn digit_char(d: int) -> char
    recommends
        0 <= d < 10,
{
    if d == 0 {
        '0'
    } else if d == 1 {
        '1'
    } else if d == 2 {
        '2'
    } else if d == 3 {
        '3'
    } else if d == 4 {
        '4'
    } else if d == 5 {
        '5'
    } else if d == 6 {
        '6'
    } else if d == 7 {
        '7'
    } else if d == 8 {
        '8'
    } else {
        '9'
    }
}

/// The decimal digits of `n`, most significant first, with no leading zeros
/// (a lone zero for `n == 0`).
pub open spec fn spec_decimal(n: nat) -> Seq<char>
    decreases n,
{
    if n < 10 {
        seq![digit_char(n as int)]
    } else {
        spec_decimal(n / 10).push(digit_char((n % 10) as int))
    }
}

/// The decimal digits of `n`, padded on the left with `'0'` to at least two
/// digits.
pub open spec fn spec_padded2(n: nat) -> Seq<char> {
    if n < 10 {
        seq!['0'] + spec_decimal(n)
    } else {
        spec_decimal(n)
    }
}

/// `secs` rendered as minutes and seconds, `MM:SS`.
pub open spec fn spec_mm_ss(secs: nat) -> Seq<char> {
    spec_padded2(secs / 60) + seq![':'] + spec_padded2(secs % 60)
}

/// The one-character string for the digit `d`.
fn digit_str(d: u64) -> (r: &'static str)
    requires
        d < 10,
    ensures
        r@ == seq![digit_char(d as int)],
{
    let r: &'static str = if d == 0 {
        proof { reveal_strlit("0"); }
        "0"
    } else if d == 1 {
        proof { reveal_strlit("1"); }
        "1"
    } else if d == 2 {
        proof { reveal_strlit("2"); }
        "2"
    } else if d == 3 {
        proof { reveal_strlit("3"); }
        "3"
    } else if d == 4 {
        proof { reveal_strlit("4"); }
        "4"
    } else if d == 5 {
        proof { reveal_strlit("5"); }
        "5"
    } else if d == 6 {
        proof { reveal_strlit("6"); }
        "6"
    } else if d == 7 {
        proof { reveal_strlit("7"); }
        "7"
    } else if d == 8 {
        proof { reveal_strlit("8"); }
        "8"
    } else {
        proof { reveal_strlit("9"); }
        "9"
    };
    proof {
        assert(r@ =~= seq![digit_char(d as int)]);
    }
    r
}

/// The decimal digits of `n`, most significant first.
fn decimal_string(n: u64) -> (r: String)
    ensures
        r@ == spec_decimal(n as nat),
    decreases n,
{
    if n < 10 {
        String::from_str(digit_str(n))
    } else {
        proof {
            assert(n / 10 < n) by (nonlinear_arith)
                requires
                    n >= 10,
            ;
        }
        let mut s = decimal_string(n / 10);
        s.append(digit_str(n % 10));
        proof {
            assert(s@ =~= spec_decimal((n / 10) as nat).push(digit_char((n % 10) as int)));
        }
        s
    }
}

/// The decimal digits of `n`, zero-padded to at least two.
fn padded2_string(n: u64) -> (r: String)
    ensures
        r@ == spec_padded2(n as nat),
{
    if n < 10 {
        proof { reveal_strlit("0"); }
        let mut s = String::from_str("0");
        s.append(digit_str(n));
        proof {
            assert("0"@ =~= seq!['0']);
            assert(s@ =~= seq!['0'] + spec_decimal(n as nat));
        }
        s
    } else {
        decimal_string(n)
    }
}

/// Renders `secs` as `MM:SS`.
pub fn format_mm_ss(secs: u64) -> (r: String)
    ensures
        r@ == spec_mm_ss(secs as nat),
{
    let mut s = padded2_string(secs / 60);
    proof { reveal_strlit(":"); }
    s.append(":");
    let tail = padded2_string(secs % 60);
    s.append(tail.as_str());
    proof {
        assert(":"@ =~= seq![':']);
        assert(s@ =~= spec_padded2((secs / 60) as nat) + seq![':'] + spec_padded2(
            (secs % 60) as nat,
        ));
    }
    s
}

} // verus!
