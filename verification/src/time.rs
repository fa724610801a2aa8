//! Plain representations of time spans and instants.

use vstd::prelude::*;
use crate::text::chars_of;

verus! {

/// Number of nanoseconds in one second.
pub const NANOS_PER_SEC: u32 = 1_000_000_000;

/// A span of time, held as whole seconds plus a sub-second part in nanoseconds.
#[derive(Clone, Copy, Debug, PartialEq, Eq, Structural)]
pub struct Duration {
    pub secs: u64,
    pub nanos: u32,
}

impl Duration {
    /// The span in nanoseconds.
    pub open spec fn total_nanos(self) -> int {
        self.secs * 1_000_000_000 + self.nanos
    }

    /// Well-formed spans keep the sub-second part below one second.
    pub open spec fn wf(self) -> bool {
        self.nanos < NANOS_PER_SEC
    }

    /// A span of `secs` whole seconds.
    pub fn from_secs(secs: u64) -> (d: Duration)
        ensures
            d.wf(),
            d.secs == secs,
            d.nanos == 0,
            d.total_nanos() == secs * 1_000_000_000,
    {
        Duration { secs, nanos: 0 }
    }

    /// Whether the span is empty.
    pub fn is_zero(&self) -> (b: bool)
        ensures
            b == (self.secs == 0 && self.nanos == 0),
    {
        self.secs == 0 && self.nanos == 0
    }
}

/// An instant in UTC, held as seconds since the Unix epoch plus nanoseconds
/// since the last whole second.
#[derive(Clone, Copy, Debug, PartialEq, Eq, Structural)]
pub struct Timestamp {
    pub secs: i64,
    pub nanos: u32,
}

impl Timestamp {
    /// Well-formed instants keep the sub-second part below one second.
    pub open spec fn wf(self) -> bool {
        self.nanos < NANOS_PER_SEC
    }

    /// The instant `secs` whole seconds after the Unix epoch.
    pub fn from_secs(secs: i64) -> (t: Timestamp)
        ensures
            t.secs == secs,
            t.nanos == 0,
    {
        Timestamp { secs, nanos: 0 }
    }
}

/// Reads the system clock (`std::time::SystemTime::now`) and measures it from
/// the Unix epoch with `duration_since`: `Ok` with the span after the epoch,
/// `Err` with the span before it (`SystemTimeError::duration`), each as whole
/// seconds and sub-second nanoseconds. `Duration::subsec_nanos` is below one
/// second; nothing else is promised: the value depends on the clock.
#[verifier::external_body]
fn system_clock() -> (r: Result<(u64, u32), (u64, u32)>)
    ensures
        match r {
            Ok((_, n)) => n < NANOS_PER_SEC,
            Err((_, n)) => n < NANOS_PER_SEC,
        },
{
    match std::time::SystemTime::now().duration_since(std::time::UNIX_EPOCH) {
        Ok(d) => Ok((d.as_secs(), d.subsec_nanos())),
        Err(e) => Err((e.duration().as_secs(), e.duration().subsec_nanos())),
    }
}

/// The instant of a clock reading: `Ok((s, n))` is `s` seconds and `n`
/// nanoseconds after the Unix epoch, `Err((s, n))` as much before it; an
/// instant beyond the range of `i64` seconds is clamped to its end.
pub open spec fn instant_of_reading(r: Result<(u64, u32), (u64, u32)>) -> Timestamp {
    match r {
        Ok((s, n)) => if s <= i64::MAX {
            Timestamp { secs: s as i64, nanos: n }
        } else {
            Timestamp { secs: i64::MAX, nanos: n }
        },
        Err((s, n)) => if n == 0 {
            if s <= 0x8000_0000_0000_0000 {
                Timestamp { secs: (-s) as i64, nanos: 0 }
            } else {
                Timestamp { secs: i64::MIN, nanos: 0 }
            }
        } else if s < 0x8000_0000_0000_0000 {
            Timestamp { secs: (-s - 1) as i64, nanos: (NANOS_PER_SEC - n) as u32 }
        } else {
            Timestamp { secs: i64::MIN, nanos: 0 }
        },
    }
}

/// The instant of the clock reading `r`.
pub fn timestamp_of_reading(r: Result<(u64, u32), (u64, u32)>) -> (t: Timestamp)
    requires
        match r {
            Ok((_, n)) => n < NANOS_PER_SEC,
            Err((_, n)) => n < NANOS_PER_SEC,
        },
    ensures
        t == instant_of_reading(r),
        t.wf(),
{
    match r {
        Ok((s, n)) => if s <= 0x7fff_ffff_ffff_ffff {
            Timestamp { secs: s as i64, nanos: n }
        } else {
            Timestamp { secs: i64::MAX, nanos: n }
        },
        Err((s, n)) => if n == 0 {
            if s < 0x8000_0000_0000_0000 {
                Timestamp { secs: -(s as i64), nanos: 0 }
            } else {
                Timestamp { secs: i64::MIN, nanos: 0 }
            }
        } else if s < 0x8000_0000_0000_0000 {
            Timestamp { secs: -(s as i64) - 1, nanos: NANOS_PER_SEC - n }
        } else {
            Timestamp { secs: i64::MIN, nanos: 0 }
        },
    }
}

/// The current instant as the system clock reads it, before the Unix epoch
/// too; nothing but its form is promised, as it depends on the clock.
pub fn utc_now() -> (t: Timestamp)
    ensures
        t.wf(),
{
    timestamp_of_reading(system_clock())
}

/// The UTC instant, as whole seconds since the Unix epoch and nanoseconds,
/// that `chrono::DateTime::parse_from_rfc3339` reads from `s`, if it accepts it.
pub uninterp spec fn rfc3339_instant(s: Seq<char>) -> Option<(i64, u32)>;

/// Parses an RFC 3339 date and time with `chrono::DateTime::parse_from_rfc3339`
/// and converts it to UTC (`with_timezone(&Utc)`); the result is named, not stated.
#[verifier::external_body]
pub(crate) fn parse_rfc3339(s: &str) -> (r: Option<Timestamp>)
    ensures
        match r {
            Some(t) => rfc3339_instant(s@) == Some((t.secs, t.nanos)),
            None => rfc3339_instant(s@) is None,
        },
{
    match chrono::DateTime::parse_from_rfc3339(s) {
        Ok(dt) => {
            let utc = dt.with_timezone(&chrono::Utc);
            Some(Timestamp { secs: utc.timestamp(), nanos: utc.timestamp_subsec_nanos() })
        },
        Err(_) => None,
    }
}

/// The value of a run of decimal digits.
pub open spec fn digits_value(d: Seq<char>) -> int
    decreases d.len(),
{
    if d.len() == 0 {
        0
    } else {
        10 * digits_value(d.drop_last()) + (d.last() as int - '0' as int)
    }
}

/// Whether `d` is a non-empty run of ASCII digits.
pub open spec fn is_ascii_digits(d: Seq<char>) -> bool {
    d.len() > 0 && forall|i: int| 0 <= i < d.len() ==> '0' <= #[trigger] d[i] <= '9'
}

/// The integer that `str::parse::<i64>` reads from `s`: an optional `+` or
/// `-` followed by at least one ASCII digit and nothing else, whose value
/// lies in the range of `i64`.
pub open spec fn parsed_i64(s: Seq<char>) -> Option<i64> {
    let neg = s.len() > 0 && s[0] == '-';
    let d = if s.len() > 0 && (s[0] == '-' || s[0] == '+') {
        s.drop_first()
    } else {
        s
    };
    let v = if neg {
        -digits_value(d)
    } else {
        digits_value(d)
    };
    if is_ascii_digits(d) && i64::MIN <= v <= i64::MAX {
        Some(v as i64)
    } else {
        None
    }
}

proof fn lemma_digits_value_step(d: Seq<char>, k: int)
    requires
        0 <= k < d.len(),
        forall|i: int| 0 <= i < d.len() ==> '0' <= #[trigger] d[i] <= '9',
    ensures
        digits_value(d.take(k + 1)) == 10 * digits_value(d.take(k)) + (d[k] as int - '0' as int),
        digits_value(d.take(k)) >= 0,
    decreases k,
{
    assert(d.take(k + 1).drop_last() =~= d.take(k));
    if k > 0 {
        lemma_digits_value_step(d, k - 1);
    }
}

/// Reads a decimal `i64` as `str::parse::<i64>` does.
pub fn parse_i64(s: &str) -> (r: Option<i64>)
    ensures
        r == parsed_i64(s@),
{
    let v = chars_of(s);
    let n = v.len();
    let neg = n > 0 && v[0] == '-';
    let start: usize = if n > 0 && (v[0] == '-' || v[0] == '+') { 1 } else { 0 };
    let ghost d = if n > 0 && (s@[0] == '-' || s@[0] == '+') { s@.drop_first() } else { s@ };
    if start == n {
        return None;
    }
    let limit: u128 = if neg { 9223372036854775808 } else { 9223372036854775807 };
    let mut acc: u128 = 0;
    let mut over = false;
    let mut i: usize = start;
    assert(d =~= v@.skip(start as int));
    while i < n
        invariant
            v@ == s@,
            start <= i <= n == v@.len(),
            d == v@.skip(start as int),
            d == (if s@.len() > 0 && (s@[0] == '-' || s@[0] == '+') { s@.drop_first() } else { s@ }),
            neg == (s@.len() > 0 && s@[0] == '-'),
            limit == (if neg { 9223372036854775808u128 } else { 9223372036854775807u128 }),
            forall|k: int| 0 <= k < i - start ==> '0' <= #[trigger] d[k] <= '9',
            !over ==> acc == digits_value(d.take(i - start)) && acc <= limit,
            over ==> digits_value(d.take(i - start)) > limit,
        decreases n - i,
    {
        let c = v[i];
        if !('0' <= c && c <= '9') {
            proof {
                assert(d[i - start] == c);
                assert(!is_ascii_digits(d));
            }
            return None;
        }
        proof {
            assert(d[i - start] == c);
            let dd = d.take(i - start + 1);
            assert(forall|k: int| 0 <= k < dd.len() ==> '0' <= #[trigger] dd[k] <= '9');
            lemma_digits_value_step(dd, i - start);
            assert(dd.take(i - start + 1) =~= dd);
            assert(dd.take(i - start) =~= d.take(i - start));
        }
        if !over {
            let digit = (c as u32 - '0' as u32) as u128;
            acc = acc * 10 + digit;
            if acc > limit {
                over = true;
            }
        }
        i = i + 1;
    }
    proof {
        assert(d.take(n - start) =~= d);
    }
    if over {
        return None;
    }
    if neg {
        if acc == 9223372036854775808 {
            Some(i64::MIN)
        } else {
            Some(-(acc as i64))
        }
    } else {
        Some(acc as i64)
    }
}

/// The earliest second that chrono's `DateTime<Utc>` represents: the start of
/// January 1 of the year -262143.
pub const MIN_UTC_SECS: i64 = -8334601228800;

/// The latest second that chrono's `DateTime<Utc>` represents: the last
/// second of December 31 of the year 262142.
pub const MAX_UTC_SECS: i64 = 8210266876799;

/// Whether `chrono::DateTime::<Utc>::from_timestamp(secs, 0)` accepts `secs`:
/// whether the instant lies in chrono's range of dates.
pub open spec fn utc_secs_in_range(secs: i64) -> bool {
    MIN_UTC_SECS <= secs <= MAX_UTC_SECS
}

/// The instant `secs` seconds after the Unix epoch, through
/// `chrono::DateTime::<Utc>::from_timestamp(secs, 0)`, which returns `None`
/// when the instant is out of chrono's range and otherwise that instant, with
/// no sub-second part.
#[verifier::external_body]
pub(crate) fn utc_from_secs(secs: i64) -> (r: Option<Timestamp>)
    ensures
        r is Some == utc_secs_in_range(secs),
        r is Some ==> r == Some(Timestamp { secs, nanos: 0 }),
{
    chrono::DateTime::<chrono::Utc>::from_timestamp(secs, 0).map(
        |dt| Timestamp { secs: dt.timestamp(), nanos: dt.timestamp_subsec_nanos() },
    )
}

} // verus!
