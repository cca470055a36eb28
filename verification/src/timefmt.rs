//! Verified rendering of numbers and of centisecond times.
//!
//! Subtitle formats write a time of day as `HH:MM:SS,mmm` (SRT) or
//! `HH:MM:SS.mmm` (VTT). The engine reports times in centiseconds, so the
//! millisecond field is always a multiple of ten.

use vstd::prelude::*;

verus! {

/// The decimal digit character for `d` (0 through 9).
pub open spec fn spec_digit(d: int) -> char {
    if d == 0 {
        '0'
    } else if d == 1 {
        '1'
    } else if d == 2 {
        '2'
    } else if d == 3 {
        '3'
    } else if d == 4 {
        '4'
    } else if d == 5 {
        '5'
    } else if d == 6 {
        '6'
    } else if d == 7 {
        '7'
    } else if d == 8 {
        '8'
    } else {
        '9'
    }
}

/// Decimal rendering of `n`, most significant digit first, no leading zeros.
pub open spec fn spec_dec(n: nat) -> Seq<char>
    decreases n,
{
    if n < 10 {
        seq![spec_digit(n as int)]
    } else {
        spec_dec(n / 10) + seq![spec_digit((n % 10) as int)]
    }
}

/// `n` rendered with at least two digits, zero-padded.
pub open spec fn spec_pad2(n: nat) -> Seq<char> {
    if n < 10 {
        "0"@ + spec_dec(n)
    } else {
        spec_dec(n)
    }
}

/// `n` rendered with at least three digits, zero-padded.
pub open spec fn spec_pad3(n: nat) -> Seq<char> {
    if n < 10 {
        "00"@ + spec_dec(n)
    } else if n < 100 {
        "0"@ + spec_dec(n)
    } else {
        spec_dec(n)
    }
}

/// A time of `cs` centiseconds rendered as `HH:MM:SS<sep>mmm`, where `sep`
/// is `,` for SRT and `.` for VTT.
pub open spec fn spec_timestamp(cs: int, comma: bool) -> Seq<char> {
    spec_pad2((cs / 360000) as nat) + ":"@ + spec_pad2(((cs / 6000) % 60) as nat) + ":"@
        + spec_pad2(((cs / 100) % 60) as nat) + (if comma {
        ","@
    } else {
        "."@
    }) + spec_pad3(((cs % 100) * 10) as nat)
}

fn push_digit(out: &mut String, d: u64)
    requires
        d < 10,
    ensures
        final(out)@ == old(out)@ + seq![spec_digit(d as int)],
{
    let s: &str = if d == 0 {
        "0"
    } else if d == 1 {
        "1"
    } else if d == 2 {
        "2"
    } else if d == 3 {
        "3"
    } else if d == 4 {
        "4"
    } else if d == 5 {
        "5"
    } else if d == 6 {
        "6"
    } else if d == 7 {
        "7"
    } else if d == 8 {
        "8"
    } else {
        "9"
    };
    proof {
        reveal_strlit("0");
        reveal_strlit("1");
        reveal_strlit("2");
        reveal_strlit("3");
        reveal_strlit("4");
        reveal_strlit("5");
        reveal_strlit("6");
        reveal_strlit("7");
        reveal_strlit("8");
        reveal_strlit("9");
        assert(s@ =~= seq![spec_digit(d as int)]);
    }
    out.append(s);
}

/// Appends the decimal rendering of `n` to `out`.
pub fn push_dec(out: &mut String, n: u64)
    ensures
        final(out)@ == old(out)@ + spec_dec(n as nat),
    decreases n,
{
    if n >= 10 {
        push_dec(out, n / 10);
    }
    push_digit(out, n % 10);
    proof {
        if n >= 10 {
            assert(old(out)@ + spec_dec((n / 10) as nat) + seq![spec_digit((n % 10) as int)]
                =~= old(out)@ + spec_dec(n as nat));
        }
    }
}

/// Appends `n` zero-padded to at least two digits.
pub fn push_pad2(out: &mut String, n: u64)
    ensures
        final(out)@ == old(out)@ + spec_pad2(n as nat),
{
    if n < 10 {
        out.append("0");
    }
    push_dec(out, n);
    proof {
        if n < 10 {
            assert(old(out)@ + "0"@ + spec_dec(n as nat) =~= old(out)@ + spec_pad2(n as nat));
        }
    }
}

/// Appends `n` zero-padded to at least three digits.
pub fn push_pad3(out: &mut String, n: u64)
    ensures
        final(out)@ == old(out)@ + spec_pad3(n as nat),
{
    if n < 10 {
        out.append("00");
    } else if n < 100 {
        out.append("0");
    }
    push_dec(out, n);
    proof {
        if n < 10 {
            assert(old(out)@ + "00"@ + spec_dec(n as nat) =~= old(out)@ + spec_pad3(n as nat));
        } else if n < 100 {
            assert(old(out)@ + "0"@ + spec_dec(n as nat) =~= old(out)@ + spec_pad3(n as nat));
        }
    }
}

/// Appends `cs` centiseconds rendered as `HH:MM:SS,mmm` (`comma`) or
/// `HH:MM:SS.mmm` (otherwise).
pub fn push_timestamp(out: &mut String, cs: i64, comma: bool)
    requires
        0 <= cs,
    ensures
        final(out)@ == old(out)@ + spec_timestamp(cs as int, comma),
{
    let c = cs as u64;
    push_pad2(out, c / 360000);
    out.append(":");
    push_pad2(out, (c / 6000) % 60);
    out.append(":");
    push_pad2(out, (c / 100) % 60);
    if comma {
        out.append(",");
    } else {
        out.append(".");
    }
    push_pad3(out, (c % 100) * 10);
    proof {
        assert(final(out)@ =~= old(out)@ + spec_timestamp(cs as int, comma));
    }
}

} // verus!
