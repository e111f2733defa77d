//! Track positions and lengths written the way a player shows them:
//! `m:ss`, `h:mm:ss`, or `0:00.mmm` below one second.

use vstd::prelude::*;
use vstd::string::StringExecFns;

verus! {

/// The character of a decimal digit.
pub open spec fn digit_char(d: int) -> char {
    if d == 0 {
        '0'
    } else if d == 1 {
        '1'
    } else if d == 2 {
        '2'
    } else if d == 3 {
        '3'
    } else if d == 4 {
        '4'
    } else if d == 5 {
        '5'
    } else if d == 6 {
        '6'
    } else if d == 7 {
        '7'
    } else if d == 8 {
        '8'
    } else {
        '9'
    }
}

/// `n` in decimal, without leading zeros.
pub open spec fn decimal(n: nat) -> Seq<char>
    decreases n,
{
    if n < 10 {
        seq![digit_char(n as int)]
    } else {
        decimal(n / 10) + seq![digit_char((n % 10) as int)]
    }
}

/// `n` in decimal, padded with zeros to at least two digits.
pub open spec fn two_digits(n: nat) -> Seq<char> {
    if n < 10 {
        seq!['0'] + decimal(n)
    } else {
        decimal(n)
    }
}

/// `n` in decimal, padded with zeros to at least three digits.
pub open spec fn three_digits(n: nat) -> Seq<char> {
    if n < 10 {
        seq!['0', '0'] + decimal(n)
    } else if n < 100 {
        seq!['0'] + decimal(n)
    } else {
        decimal(n)
    }
}

/// How a duration of `total` milliseconds is written: hours only where there
/// are any, minutes always, seconds in two digits, and milliseconds only
/// where the duration is under one second.
pub open spec fn timestamp_text(total: nat) -> Seq<char> {
    let ms = total % 1000;
    let secs = total / 1000;
    let s = secs % 60;
    let mins = secs / 60;
    let m = mins % 60;
    let h = mins / 60;
    if h == 0 && m == 0 && s == 0 {
        seq!['0', ':', '0', '0', '.'] + three_digits(ms)
    } else if h == 0 {
        decimal(m) + seq![':'] + two_digits(s)
    } else {
        decimal(h) + seq![':'] + two_digits(m) + seq![':'] + two_digits(s)
    }
}

fn digit_text(d: u64) -> (r: &'static str)
    requires
        d < 10,
    ensures
        r@ == seq![digit_char(d as int)],
{
    proof {
        reveal_strlit("0");
        reveal_strlit("1");
        reveal_strlit("2");
        reveal_strlit("3");
        reveal_strlit("4");
        reveal_strlit("5");
        reveal_strlit("6");
        reveal_strlit("7");
        reveal_strlit("8");
        reveal_strlit("9");
    }
    match d {
        0 => "0",
        1 => "1",
        2 => "2",
        3 => "3",
        4 => "4",
        5 => "5",
        6 => "6",
        7 => "7",
        8 => "8",
        _ => "9",
    }
}

fn push_decimal(out: &mut String, n: u64)
    ensures
        final(out)@ == old(out)@ + decimal(n as nat),
    decreases n,
{
    if n >= 10 {
        push_decimal(out, n / 10);
    }
    out.append(digit_text(n % 10));
    proof {
        if n < 10 {
            assert(n % 10 == n);
        }
    }
    assert(final(out)@ =~= old(out)@ + decimal(n as nat));
}

fn push_two_digits(out: &mut String, n: u64)
    ensures
        final(out)@ == old(out)@ + two_digits(n as nat),
{
    if n < 10 {
        out.append("0");
        proof {
            reveal_strlit("0");
        }
    }
    push_decimal(out, n);
    assert(final(out)@ =~= old(out)@ + two_digits(n as nat));
}

fn push_three_digits(out: &mut String, n: u64)
    ensures
        final(out)@ == old(out)@ + three_digits(n as nat),
{
    proof {
        reveal_strlit("00");
        reveal_strlit("0");
    }
    if n < 10 {
        out.append("00");
    } else if n < 100 {
        out.append("0");
    }
    push_decimal(out, n);
    assert(final(out)@ =~= old(out)@ + three_digits(n as nat));
}

/// A non-negative duration, to the millisecond, as it is shown to users.
#[derive(Clone, Copy, Debug, PartialEq, Eq, Structural)]
pub struct PrettifiedTimestamp {
    pub millis: u64,
}

impl PrettifiedTimestamp {
    /// The duration of `millis` milliseconds.
    pub fn from_millis(millis: u64) -> (r: PrettifiedTimestamp)
        ensures
            r.millis == millis,
    {
        PrettifiedTimestamp { millis }
    }

    /// The duration in milliseconds.
    pub fn num_milliseconds(&self) -> (r: u64)
        ensures
            r == self.millis,
    {
        self.millis
    }

    /// The duration as it is shown: see [`timestamp_text`].
    pub fn to_string(&self) -> (r: String)
        ensures
            r@ == timestamp_text(self.millis as nat),
    {
        let total = self.millis;
        let ms = total % 1000;
        let secs = total / 1000;
        let s = secs % 60;
        let mins = secs / 60;
        let m = mins % 60;
        let h = mins / 60;
        let mut out = String::new();
        proof {
            reveal_strlit("0:00.");
            reveal_strlit(":");
        }
        if h == 0 && m == 0 && s == 0 {
            out.append("0:00.");
            push_three_digits(&mut out, ms);
        } else if h == 0 {
            push_decimal(&mut out, m);
            out.append(":");
            push_two_digits(&mut out, s);
        } else {
            push_decimal(&mut out, h);
            out.append(":");
            push_two_digits(&mut out, m);
            out.append(":");
            push_two_digits(&mut out, s);
        }
        assert(out@ =~= timestamp_text(total as nat));
        out
    }
}

} // verus!
