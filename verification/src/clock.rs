//! The framework's nanosecond clock: possibly-unset timestamps, elapsed-time
//! subtraction, and the conventional `h:mm:ss.nnnnnnnnn` rendering that the
//! log redirector prefixes to every line.

use vstd::prelude::*;
use crate::render::{dec_chars, dec_chars_fixed, push_decimal, push_decimal_fixed};

verus! {

/// A framework timestamp in nanoseconds.  The framework's clock values may
/// be undefined — before initialization has recorded a start instant there
/// is nothing to subtract — so the value is optional.
#[derive(Clone, Copy, Debug)]
pub struct ClockTime {
    pub nanos: Option<u64>,
}

impl ClockTime {
    /// The undefined timestamp.
    pub fn unset() -> (r: ClockTime)
        ensures
            r.nanos is None,
    {
        ClockTime { nanos: None }
    }

    /// The timestamp `ns` nanoseconds into the clock's epoch.
    pub fn from_nanos(ns: u64) -> (r: ClockTime)
        ensures
            r.nanos == Some(ns),
    {
        ClockTime { nanos: Some(ns) }
    }
}

/// The time elapsed from `start` to `now`: defined exactly when both
/// timestamps are defined and the clock has not run backwards.
pub fn elapsed_since(start: ClockTime, now: ClockTime) -> (r: ClockTime)
    ensures
        r.nanos == (match (start.nanos, now.nanos) {
            (Some(s), Some(n)) => if s <= n {
                Some((n - s) as u64)
            } else {
                None
            },
            _ => None,
        }),
{
    match (start.nanos, now.nanos) {
        (Some(s), Some(n)) => if s <= n {
            ClockTime { nanos: Some(n - s) }
        } else {
            ClockTime { nanos: None }
        },
        _ => ClockTime { nanos: None },
    }
}

/// The clock rendering of a timestamp: unpadded hours, two-digit minutes and
/// seconds, nine-digit nanoseconds; an undefined timestamp renders as the
/// framework's conventional all-nines placeholder.
pub open spec fn clock_chars(nanos: Option<u64>) -> Seq<char> {
    match nanos {
        Some(ns) => {
            let secs = ns as nat / 1_000_000_000;
            dec_chars(secs / 3600) + seq![':'] + dec_chars_fixed((secs / 60) % 60, 2) + seq![':']
                + dec_chars_fixed(secs % 60, 2) + seq!['.'] + dec_chars_fixed(
                ns as nat % 1_000_000_000,
                9,
            )
        },
        None => "99:99:99.999999999"@,
    }
}

/// Appends the clock rendering of `t` to `out`.
pub fn push_clock(out: &mut String, t: ClockTime)
    ensures
        final(out)@ == old(out)@ + clock_chars(t.nanos),
{
    match t.nanos {
        Some(ns) => {
            let secs: u64 = ns / 1_000_000_000;
            push_decimal(out, secs / 3600);
            out.append(":");
            push_decimal_fixed(out, (secs / 60) % 60, 2);
            out.append(":");
            push_decimal_fixed(out, secs % 60, 2);
            out.append(".");
            push_decimal_fixed(out, ns % 1_000_000_000, 9);
            proof {
                reveal_strlit(":");
                reveal_strlit(".");
                assert(":"@ =~= seq![':']);
                assert("."@ =~= seq!['.']);
                assert(out@ =~= old(out)@ + clock_chars(t.nanos));
            }
        },
        None => {
            out.append("99:99:99.999999999");
        },
    }
}

/// The clock rendering of `t` as an owned string.
pub fn clock_string(t: ClockTime) -> (r: String)
    ensures
        r@ == clock_chars(t.nanos),
{
    let mut out = String::new();
    push_clock(&mut out, t);
    proof {
        assert(Seq::<char>::empty() + clock_chars(t.nanos) =~= clock_chars(t.nanos));
    }
    out
}

} // verus!
