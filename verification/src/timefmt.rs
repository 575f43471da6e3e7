//! Clock-style display of a duration: whole minutes and leftover seconds,
//! each zero-padded to two digits, as in `03:05`.

use vstd::prelude::*;
use vstd::string::StringExecFns;

verus! {

/// The decimal digit character for `n` in 0 ..= 9.
pub open spec fn digit_char(n: int) -> char {
    if n == 0 {
        '0'
    } else if n == 1 {
        '1'
    } else if n == 2 {
        '2'
    } else if n == 3 {
        '3'
    } else if n == 4 {
        '4'
    } else if n == 5 {
        '5'
    } else if n == 6 {
        '6'
    } else if n == 7 {
        '7'
    } else if n == 8 {
        '8'
    } else {
        '9'
    }
}

/// The decimal digits of `n`, most significant first.
pub open spec fn decimal_digits(n: int) -> Seq<char>
    decreases n,
{
    if n < 10 {
        seq![digit_char(n)]
    } else {
        decimal_digits(n / 10).push(digit_char(n % 10))
    }
}

/// The decimal digits of `n`, zero-padded on the left to at least two.
pub open spec fn two_digits(n: int) -> Seq<char> {
    if n < 10 {
        seq!['0'] + decimal_digits(n)
    } else {
        decimal_digits(n)
    }
}

/// The clock display of a duration given in milliseconds.
pub open spec fn clock_display(ms: int) -> Seq<char> {
    two_digits(ms / 1000 / 60) + seq![':'] + two_digits(ms / 1000 % 60)
}

/// The one-character string for a decimal digit.
fn digit_str(n: u64) -> (r: &'static str)
    requires
        n < 10,
    ensures
        r@ == seq![digit_char(n as int)],
{
    let r: &'static str = match n {
        0 => "0",
        1 => "1",
        2 => "2",
        3 => "3",
        4 => "4",
        5 => "5",
        6 => "6",
        7 => "7",
        8 => "8",
        _ => "9",
    };
    proof {
        reveal_strlit("0");
        reveal_strlit("1");
        reveal_strlit("2");
        reveal_strlit("3");
        reveal_strlit("4");
        reveal_strlit("5");
        reveal_strlit("6");
        reveal_strlit("7");
        reveal_strlit("8");
        reveal_strlit("9");
        assert(r@ =~= seq![digit_char(n as int)]);
    }
    r
}

/// The decimal digits of `n` as a string.
fn decimal_string(n: u64) -> (r: String)
    ensures
        r@ == decimal_digits(n as int),
    decreases n,
{
    if n < 10 {
        digit_str(n).to_owned()
    } else {
        let mut r = decimal_string(n / 10);
        r.append(digit_str(n % 10));
        proof {
            assert(r@ =~= decimal_digits(n as int));
        }
        r
    }
}

/// The decimal digits of `n`, zero-padded on the left to at least two.
fn two_digit_string(n: u64) -> (r: String)
    ensures
        r@ == two_digits(n as int),
{
    if n < 10 {
        let mut r = "0".to_owned();
        r.append(digit_str(n));
        proof {
            reveal_strlit("0");
            assert(r@ =~= two_digits(n as int));
        }
        r
    } else {
        decimal_string(n)
    }
}

/// The clock display of a duration in milliseconds: minutes and leftover
/// seconds, each at least two digits, separated by a colon.
pub fn format_duration(ms: u64) -> (r: String)
    ensures
        r@ == clock_display(ms as int),
{
    let total_secs: u64 = ms / 1000;
    let mins: u64 = total_secs / 60;
    let secs: u64 = total_secs % 60;
    let mut r = two_digit_string(mins);
    r.append(":");
    let tail = two_digit_string(secs);
    r.append(tail.as_str());
    proof {
        reveal_strlit(":");
        assert(r@ =~= clock_display(ms as int));
    }
    r
}

} // verus!
