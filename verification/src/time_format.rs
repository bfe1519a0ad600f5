//! Rendering of durations as `MM:SS` text, tracked in milliseconds.

use vstd::prelude::*;
use vstd::string::StringExecFns;

verus! {

/// The decimal digit character for `d`, defined for `d < 10`.
pub open spec fn digit_char(d: nat) -> char {
    if d == 0 {
        '0'
    } else if d == 1 {
        '1'
    } else if d == 2 {
        '2'
    } else if d == 3 {
        '3'
    } else if d == 4 {
        '4'
    } else if d == 5 {
        '5'
    } else if d == 6 {
        '6'
    } else if d == 7 {
        '7'
    } else if d == 8 {
        '8'
    } else {
        '9'
    }
}

/// The decimal representation of `n`: most significant digit first, no
/// leading zeros.
pub open spec fn dec_chars(n: nat) -> Seq<char>
    decreases n,
{
    if n < 10 {
        seq![digit_char(n)]
    } else {
        dec_chars(n / 10) + seq![digit_char(n % 10)]
    }
}

/// The decimal representation of `n`, padded with a leading zero to at least
/// two characters.
pub open spec fn two_digit_chars(n: nat) -> Seq<char> {
    if n < 10 {
        seq!['0', digit_char(n)]
    } else {
        dec_chars(n)
    }
}

/// A duration of `millis` milliseconds rendered as minutes and seconds,
/// each zero-padded to at least two digits and separated by a colon.
pub open spec fn mmss_chars(millis: nat) -> Seq<char> {
    two_digit_chars(millis / 1000 / 60) + seq![':'] + two_digit_chars(millis / 1000 % 60)
}

/// The one-character string for the decimal digit `d`.
fn digit_str(d: u64) -> (r: &'static str)
    requires
        d < 10,
    ensures
        r@ == seq![digit_char(d as nat)],
{
    let r: &'static str = if d == 0 {
        "0"
    } else if d == 1 {
        "1"
    } else if d == 2 {
        "2"
    } else if d == 3 {
        "3"
    } else if d == 4 {
        "4"
    } else if d == 5 {
        "5"
    } else if d == 6 {
        "6"
    } else if d == 7 {
        "7"
    } else if d == 8 {
        "8"
    } else {
        "9"
    };
    proof {
        reveal_strlit("0");
        reveal_strlit("1");
        reveal_strlit("2");
        reveal_strlit("3");
        reveal_strlit("4");
        reveal_strlit("5");
        reveal_strlit("6");
        reveal_strlit("7");
        reveal_strlit("8");
        reveal_strlit("9");
        assert(r@ =~= seq![digit_char(d as nat)]);
    }
    r
}

/// The decimal representation of `n` as a string.
pub fn u128_to_dec(n: u128) -> (r: String)
    ensures
        r@ == dec_chars(n as nat),
    decreases n,
{
    if n < 10 {
        String::from_str(digit_str(n as u64))
    } else {
        let prefix: String = u128_to_dec(n / 10);
        prefix.concat(digit_str((n % 10) as u64))
    }
}

/// The decimal representation of `n`, zero-padded to at least two digits.
pub fn u128_to_two_digit(n: u128) -> (r: String)
    ensures
        r@ == two_digit_chars(n as nat),
{
    if n < 10 {
        let r: String = String::from_str("0").concat(digit_str(n as u64));
        proof {
            reveal_strlit("0");
            assert(r@ =~= two_digit_chars(n as nat));
        }
        r
    } else {
        u128_to_dec(n)
    }
}

/// Renders `millis` milliseconds as `MM:SS`: whole minutes, then the
/// leftover seconds, both zero-padded to two digits.
pub fn convert_millis_to_time(millis: u128) -> (r: String)
    ensures
        r@ == mmss_chars(millis as nat),
{
    let seconds: u128 = millis / 1000;
    let minutes: u128 = seconds / 60;
    let r: String = u128_to_two_digit(minutes).concat(":").concat(
        u128_to_two_digit(seconds % 60).as_str(),
    );
    proof {
        reveal_strlit(":");
        assert(r@ =~= mmss_chars(millis as nat));
    }
    r
}

} // verus!
