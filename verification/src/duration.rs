//! Rendering a wall-clock duration at human-appropriate precision.
//!
//! A duration measured in nanoseconds is shown in one of four tiers —
//! nanoseconds, microseconds with one decimal, milliseconds with one
//! decimal, seconds with two decimals — rounded to nearest, ties upward.

use vstd::prelude::*;

verus! {

use vstd::string::StringExecFns;

/// The decimal digit `d` as a character.
pub open spec fn digit_char(d: nat) -> char {
    if d == 0 {
        '0'
    } else if d == 1 {
        '1'
    } else if d == 2 {
        '2'
    } else if d == 3 {
        '3'
    } else if d == 4 {
        '4'
    } else if d == 5 {
        '5'
    } else if d == 6 {
        '6'
    } else if d == 7 {
        '7'
    } else if d == 8 {
        '8'
    } else {
        '9'
    }
}

/// The decimal digits of `n`, most significant first, without leading
/// zeros (zero itself is a single digit).
pub open spec fn spec_digits(n: nat) -> Seq<char>
    decreases n,
{
    if n < 10 {
        seq![digit_char(n)]
    } else {
        spec_digits(n / 10).push(digit_char(n % 10))
    }
}

/// The single decimal digit `d`, as a borrowed string.
fn digit_str(d: u128) -> (r: &'static str)
    requires
        d < 10,
    ensures
        r@ == seq![digit_char(d as nat)],
{
    let r = if d == 0 {
        "0"
    } else if d == 1 {
        "1"
    } else if d == 2 {
        "2"
    } else if d == 3 {
        "3"
    } else if d == 4 {
        "4"
    } else if d == 5 {
        "5"
    } else if d == 6 {
        "6"
    } else if d == 7 {
        "7"
    } else if d == 8 {
        "8"
    } else {
        "9"
    };
    proof {
        reveal_strlit("0");
        reveal_strlit("1");
        reveal_strlit("2");
        reveal_strlit("3");
        reveal_strlit("4");
        reveal_strlit("5");
        reveal_strlit("6");
        reveal_strlit("7");
        reveal_strlit("8");
        reveal_strlit("9");
        assert(r@ =~= seq![digit_char(d as nat)]);
    }
    r
}

/// `n` written in decimal.
pub fn decimal_string(n: u128) -> (r: String)
    ensures
        r@ == spec_digits(n as nat),
    decreases n,
{
    if n < 10 {
        let mut s = String::new();
        s.append(digit_str(n));
        proof {
            assert(s@ =~= spec_digits(n as nat));
        }
        s
    } else {
        let mut s = decimal_string(n / 10);
        s.append(digit_str(n % 10));
        proof {
            assert(s@ =~= spec_digits(n as nat));
        }
        s
    }
}

/// `whole` and a fractional digit: the value `whole.d`, rounded from
/// `tenths` tenths.
pub open spec fn spec_one_decimal(tenths: nat) -> Seq<char> {
    spec_digits(tenths / 10) + "."@ + seq![digit_char(tenths % 10)]
}

/// `n` divided by `unit`, in tenths of a unit, rounded to nearest with
/// ties upward.
pub open spec fn rounded_tenths(n: nat, unit: nat) -> nat
    recommends
        unit >= 10,
{
    n / (unit / 10) + (if n % (unit / 10) >= unit / 20 {
        1nat
    } else {
        0nat
    })
}

/// The rendered duration: `123ns` up to a microsecond, `12.3μs` up to a
/// millisecond, `12.3ms` up to a second, and `1.23s` beyond.
pub open spec fn spec_format_duration(nanos: nat) -> Seq<char> {
    if nanos <= 999 {
        spec_digits(nanos) + "ns"@
    } else if nanos <= 999_999 {
        spec_one_decimal(rounded_tenths(nanos, 1_000)) + "\u{3bc}s"@
    } else if nanos <= 999_999_999 {
        spec_one_decimal(rounded_tenths(nanos, 1_000_000)) + "ms"@
    } else {
        let centis = nanos / 10_000_000 + (if nanos % 10_000_000 >= 5_000_000 {
            1nat
        } else {
            0nat
        });
        spec_digits(centis / 100) + "."@ + seq![
            digit_char((centis / 10) % 10),
            digit_char(centis % 10),
        ] + "s"@
    }
}

/// Render `nanos` nanoseconds for a human reader, choosing the tier that
/// fits the magnitude.
pub fn format_duration(nanos: u128) -> (r: String)
    ensures
        r@ == spec_format_duration(nanos as nat),
{
    if nanos <= 999 {
        let mut s = decimal_string(nanos);
        s.append("ns");
        s
    } else if nanos <= 999_999 {
        let tenths = nanos / 100 + (if nanos % 100 >= 50 {
            1
        } else {
            0
        });
        let mut s = decimal_string(tenths / 10);
        s.append(".");
        s.append(digit_str(tenths % 10));
        s.append("\u{3bc}s");
        proof {
            assert(s@ =~= spec_format_duration(nanos as nat));
        }
        s
    } else if nanos <= 999_999_999 {
        let tenths = nanos / 100_000 + (if nanos % 100_000 >= 50_000 {
            1
        } else {
            0
        });
        let mut s = decimal_string(tenths / 10);
        s.append(".");
        s.append(digit_str(tenths % 10));
        s.append("ms");
        proof {
            assert(s@ =~= spec_format_duration(nanos as nat));
        }
        s
    } else {
        let centis = nanos / 10_000_000 + (if nanos % 10_000_000 >= 5_000_000 {
            1
        } else {
            0
        });
        let mut s = decimal_string(centis / 100);
        s.append(".");
        s.append(digit_str((centis / 10) % 10));
        s.append(digit_str(centis % 10));
        s.append("s");
        proof {
            assert(s@ =~= spec_format_duration(nanos as nat));
        }
        s
    }
}

} // verus!
