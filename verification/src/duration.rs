//! The duration normalizer: a plain model of a signed duration, parsing from
//! the wire format, half-up rounding to whole seconds, a compact display
//! form, and documents-per-second throughput.

use vstd::prelude::*;

use crate::text::dec_digits;
use crate::text::dec_u128;
use crate::text::dec_u64;

verus! {

/// A signed duration as whole seconds plus a sub-second nanosecond part.
///
/// Well-formed values keep the nanosecond part under one second in magnitude
/// and of the same sign as the seconds part (`wf`).
#[derive(Clone, Copy, PartialEq, Eq, Structural, Debug)]
pub struct DurationVal {
    pub secs: i64,
    pub nanos: i32,
}

impl DurationVal {
    pub open spec fn wf(self) -> bool {
        &&& -999_999_999 <= self.nanos <= 999_999_999
        &&& self.secs > 0 ==> self.nanos >= 0
        &&& self.secs < 0 ==> self.nanos <= 0
    }

    pub fn new(secs: i64, nanos: i32) -> (r: DurationVal)
        ensures
            r.secs == secs,
            r.nanos == nanos,
    {
        DurationVal { secs, nanos }
    }
}

/// What `jiff` parses a duration string into: seconds and nanoseconds, or
/// nothing when the string is not a valid duration.
pub uninterp spec fn parsed_duration(s: Seq<char>) -> Option<(int, int)>;

/// Relies on `jiff::SignedDuration`'s `FromStr`: parses an ISO 8601 or
/// "friendly" duration string, a pure function of the characters alone.
/// `jiff` documents that the signs of `as_secs` and `subsec_nanos` always
/// agree and that `subsec_nanos` stays within one second, which is `wf`.
#[verifier::external_body]
pub fn parse_duration(s: &str) -> (r: Option<DurationVal>)
    ensures
        (match r {
            Some(d) => parsed_duration(s@) == Some((d.secs as int, d.nanos as int)) && d.wf(),
            None => parsed_duration(s@) is None,
        }),
{
    match s.parse::<jiff::SignedDuration>() {
        Ok(d) => Some(DurationVal { secs: d.as_secs(), nanos: d.subsec_nanos() }),
        Err(_) => None,
    }
}

/// `d` rounded to whole seconds, half-up on the sub-second part (ties go
/// away from zero).  When the rounded value would leave the representable
/// range, the unrounded duration is kept instead of erroring.
pub open spec fn normalized(d: DurationVal) -> DurationVal {
    if d.nanos >= 500_000_000 {
        if d.secs == i64::MAX {
            d
        } else {
            DurationVal { secs: (d.secs + 1) as i64, nanos: 0 }
        }
    } else if d.nanos <= -500_000_000 {
        if d.secs == i64::MIN {
            d
        } else {
            DurationVal { secs: (d.secs - 1) as i64, nanos: 0 }
        }
    } else {
        DurationVal { secs: d.secs, nanos: 0 }
    }
}

/// Rounds `d` to whole seconds as `normalized` describes.
pub fn normalize(d: DurationVal) -> (r: DurationVal)
    ensures
        r == normalized(d),
{
    if d.nanos >= 500_000_000 {
        if d.secs == i64::MAX {
            d
        } else {
            DurationVal { secs: d.secs + 1, nanos: 0 }
        }
    } else if d.nanos <= -500_000_000 {
        if d.secs == i64::MIN {
            d
        } else {
            DurationVal { secs: d.secs - 1, nanos: 0 }
        }
    } else {
        DurationVal { secs: d.secs, nanos: 0 }
    }
}

/// The duration in whole milliseconds, truncated toward zero.
pub open spec fn millis_of(d: DurationVal) -> int {
    d.secs * 1000 + (if d.nanos >= 0 {
        d.nanos as int / 1_000_000
    } else {
        -((-(d.nanos as int)) / 1_000_000)
    })
}

/// Computes the duration in milliseconds.
pub fn millis(d: DurationVal) -> (r: i128)
    ensures
        r as int == millis_of(d),
{
    let sub: i128 = if d.nanos >= 0 {
        (d.nanos as i128) / 1_000_000
    } else {
        -((-(d.nanos as i128)) / 1_000_000)
    };
    (d.secs as i128) * 1000 + sub
}

/// The compact display of a non-negative number of whole seconds: hour,
/// minute and second components, zero components left out, `"0s"` for zero.
pub open spec fn fmt_abs_secs(a: nat) -> Seq<char> {
    if a == 0 {
        "0s"@
    } else {
        (if a / 3600 > 0 {
            dec_digits(a / 3600) + "h"@
        } else {
            Seq::<char>::empty()
        }) + (if (a % 3600) / 60 > 0 {
            dec_digits((a % 3600) / 60) + "m"@
        } else {
            Seq::<char>::empty()
        }) + (if a % 60 > 0 {
            dec_digits(a % 60) + "s"@
        } else {
            Seq::<char>::empty()
        })
    }
}

/// The compact display of `d`, whole seconds only, with a leading `'-'` for
/// negative durations.
pub open spec fn fmt_duration(d: DurationVal) -> Seq<char> {
    if d.secs < 0 {
        "-"@ + fmt_abs_secs((-(d.secs as int)) as nat)
    } else {
        fmt_abs_secs(d.secs as nat)
    }
}

/// Renders `d` as `fmt_duration` describes, e.g. `"3m42s"`.
pub fn fmt_dur(d: DurationVal) -> (r: String)
    ensures
        r@ == fmt_duration(d),
{
    let mut r = String::new();
    let a: u64 = if d.secs >= 0 {
        d.secs as u64
    } else {
        r.append("-");
        (-(d.secs as i128)) as u64
    };
    if a == 0 {
        r.append("0s");
    } else {
        let h: u64 = a / 3600;
        let m: u64 = (a % 3600) / 60;
        let s: u64 = a % 60;
        if h > 0 {
            r.append(dec_u64(h).as_str());
            r.append("h");
        }
        if m > 0 {
            r.append(dec_u64(m).as_str());
            r.append("m");
        }
        if s > 0 {
            r.append(dec_u64(s).as_str());
            r.append("s");
        }
    }
    assert(r@ =~= fmt_duration(d));
    r
}

/// Hundredths of documents per second, half-up: `count` documents over `ms`
/// milliseconds.
pub open spec fn throughput_hundredths(count: u64, ms: int) -> int
    recommends
        ms > 0,
{
    (count * 100_000 + ms / 2) / ms
}

/// The throughput with two decimal digits, e.g. `"5.00"`.
pub open spec fn throughput_text(count: u64, ms: int) -> Seq<char>
    recommends
        ms > 0,
{
    let h = throughput_hundredths(count, ms);
    dec_digits((h / 100) as nat) + "."@ + (if h % 100 < 10 {
        "0"@ + dec_digits((h % 100) as nat)
    } else {
        dec_digits((h % 100) as nat)
    })
}

/// Renders the throughput when the duration is positive; a zero or negative
/// duration yields no figure at all rather than a division by zero.
pub fn throughput(count: u64, ms: i128) -> (r: Option<String>)
    ensures
        ms > 0 ==> (r matches Some(s) && s@ == throughput_text(count, ms as int)),
        ms <= 0 ==> r is None,
{
    if ms <= 0 {
        return None;
    }
    let c: u128 = (count as u128) * 100_000;
    let m: u128 = ms as u128;
    let h: u128 = (c + m / 2) / m;
    let mut s = dec_u128(h / 100);
    s.append(".");
    let frac: u128 = h % 100;
    if frac < 10 {
        s.append("0");
    }
    s.append(dec_u128(frac).as_str());
    assert(h as int == throughput_hundredths(count, ms as int));
    assert(s@ =~= throughput_text(count, ms as int));
    Some(s)
}

} // verus!
