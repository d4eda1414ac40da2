//! Spans of time, and how far along an action is.
use vstd::prelude::*;
use vstd::arithmetic::div_mod::lemma_fundamental_div_mod_converse;
use crate::text::{padded_decimal, push_padded_decimal};

verus! {

/// One second, in nanoseconds.
pub const NANOS_PER_SEC: u64 = 1_000_000_000;

/// Half a second, in nanoseconds: the threshold at which rounding goes up.
pub const HALF_SEC_NANOS: u32 = 500_000_000;

/// The largest span a `Duration` can hold, in nanoseconds.
pub open spec fn max_duration_nanos() -> nat {
    (u64::MAX as nat) * (NANOS_PER_SEC as nat) + (NANOS_PER_SEC as nat - 1) as nat
}

/// A span of time: whole seconds plus a sub-second part in nanoseconds.
///
/// Its view is the whole span in nanoseconds.
#[derive(Clone, Copy, PartialEq, Eq, Debug)]
pub struct Duration {
    secs: u64,
    nanos: u32,
}

proof fn lemma_split(x: int, q: int, r: int)
    requires
        0 <= q,
        0 <= r < NANOS_PER_SEC,
        x == q * NANOS_PER_SEC + r,
    ensures
        x / (NANOS_PER_SEC as int) == q,
        x % (NANOS_PER_SEC as int) == r,
{
    lemma_fundamental_div_mod_converse(x, NANOS_PER_SEC as int, q, r);
}

impl View for Duration {
    type V = nat;

    closed spec fn view(&self) -> nat {
        (self.secs * NANOS_PER_SEC + self.nanos) as nat
    }
}

impl Duration {
    #[verifier::type_invariant]
    closed spec fn inv(self) -> bool {
        self.nanos < NANOS_PER_SEC
    }

    /// Makes a duration of `secs` seconds and `nanos` nanoseconds; nanoseconds
    /// beyond a second carry into the seconds.
    pub fn new(secs: u64, nanos: u32) -> (d: Duration)
        requires
            secs + (nanos as nat) / (NANOS_PER_SEC as nat) <= u64::MAX,
        ensures
            d@ == secs * NANOS_PER_SEC + nanos,
    {
        let carry = (nanos / (NANOS_PER_SEC as u32)) as u64;
        let rest = nanos % (NANOS_PER_SEC as u32);
        assert(nanos == carry * NANOS_PER_SEC + rest);
        Duration { secs: secs + carry, nanos: rest }
    }

    /// The empty span.
    pub fn zero() -> (d: Duration)
        ensures
            d@ == 0,
    {
        Duration { secs: 0, nanos: 0 }
    }

    /// A span of `ms` milliseconds.
    pub fn from_millis(ms: u64) -> (d: Duration)
        ensures
            d@ == ms * 1_000_000,
    {
        let secs = ms / 1000;
        let rest = ms % 1000;
        let nanos = (rest * 1_000_000) as u32;
        assert(secs * NANOS_PER_SEC + nanos == ms * 1_000_000) by (nonlinear_arith)
            requires
                secs == ms / 1000,
                rest == ms % 1000,
                nanos == rest * 1_000_000,
        ;
        Duration { secs, nanos }
    }

    /// A span of `n` nanoseconds.
    pub fn from_nanos(n: u64) -> (d: Duration)
        ensures
            d@ == n,
    {
        let secs = n / NANOS_PER_SEC;
        let nanos = (n % NANOS_PER_SEC) as u32;
        Duration { secs, nanos }
    }

    /// The whole seconds of the span.
    pub fn as_secs(&self) -> (s: u64)
        ensures
            s == self@ / (NANOS_PER_SEC as nat),
            self@ <= max_duration_nanos(),
    {
        proof {
            use_type_invariant(self);
            lemma_split(self@ as int, self.secs as int, self.nanos as int);
        }
        self.secs
    }

    /// The part of the span below a second, in nanoseconds.
    pub fn subsec_nanos(&self) -> (n: u32)
        ensures
            n == self@ % (NANOS_PER_SEC as nat),
            n < NANOS_PER_SEC,
    {
        proof {
            use_type_invariant(self);
            lemma_split(self@ as int, self.secs as int, self.nanos as int);
        }
        self.nanos
    }

    /// Whether `time` plus this span, in nanoseconds, fits in a `u64`.
    pub fn nanos_fit(&self, time: u64) -> (b: bool)
        ensures
            b == (time + self@ <= u64::MAX),
    {
        proof {
            use_type_invariant(self);
        }
        let secs: u128 = self.secs as u128;
        assert(secs * 1_000_000_000u128 <= 18_446_744_073_709_551_615u128 * 1_000_000_000u128) by (nonlinear_arith)
            requires
                secs <= 18_446_744_073_709_551_615u128,
        ;
        let total: u128 = secs * 1_000_000_000u128 + (self.nanos as u128);
        total + (time as u128) <= (u64::MAX as u128)
    }

    /// Whether this span, in nanoseconds, is at most `time`.
    pub fn at_most(&self, time: u64) -> (b: bool)
        ensures
            b == (self@ <= time),
    {
        proof {
            use_type_invariant(self);
        }
        let secs: u128 = self.secs as u128;
        assert(secs * 1_000_000_000u128 <= 18_446_744_073_709_551_615u128 * 1_000_000_000u128) by (nonlinear_arith)
            requires
                secs <= 18_446_744_073_709_551_615u128,
        ;
        let total: u128 = secs * 1_000_000_000u128 + (self.nanos as u128);
        total <= (time as u128)
    }

    /// Whether this span is strictly shorter than `other`.
    pub fn lt(&self, other: &Duration) -> (b: bool)
        ensures
            b == (self@ < other@),
    {
        proof {
            use_type_invariant(self);
            use_type_invariant(other);
        }
        self.secs < other.secs || (self.secs == other.secs && self.nanos < other.nanos)
    }

    /// Whether the two spans are the same length.
    pub fn same_as(&self, other: &Duration) -> (b: bool)
        ensures
            b == (self@ == other@),
    {
        proof {
            use_type_invariant(self);
            use_type_invariant(other);
            if self@ == other@ {
                lemma_split(self@ as int, self.secs as int, self.nanos as int);
                lemma_split(other@ as int, other.secs as int, other.nanos as int);
            }
        }
        self.secs == other.secs && self.nanos == other.nanos
    }

    /// The sum of two spans.
    pub fn add_dur(&self, other: &Duration) -> (d: Duration)
        requires
            self@ + other@ <= max_duration_nanos(),
        ensures
            d@ == self@ + other@,
    {
        proof {
            use_type_invariant(self);
            use_type_invariant(other);
        }
        let n = self.nanos + other.nanos;
        if n >= NANOS_PER_SEC as u32 {
            assert(self.secs + other.secs + 1 <= u64::MAX) by (nonlinear_arith)
                requires
                    self@ + other@ <= max_duration_nanos(),
                    self@ == self.secs * NANOS_PER_SEC + self.nanos,
                    other@ == other.secs * NANOS_PER_SEC + other.nanos,
                    n == self.nanos + other.nanos,
                    n >= NANOS_PER_SEC,
            ;
            Duration { secs: self.secs + other.secs + 1, nanos: n - NANOS_PER_SEC as u32 }
        } else {
            assert(self.secs + other.secs <= u64::MAX) by (nonlinear_arith)
                requires
                    self@ + other@ <= max_duration_nanos(),
                    self@ == self.secs * NANOS_PER_SEC + self.nanos,
                    other@ == other.secs * NANOS_PER_SEC + other.nanos,
            ;
            Duration { secs: self.secs + other.secs, nanos: n }
        }
    }

    /// The difference of two spans, the longer first.
    pub fn sub_dur(&self, other: &Duration) -> (d: Duration)
        requires
            other@ <= self@,
        ensures
            d@ == self@ - other@,
    {
        proof {
            use_type_invariant(self);
            use_type_invariant(other);
        }
        if self.nanos >= other.nanos {
            assert(other.secs <= self.secs) by (nonlinear_arith)
                requires
                    other@ <= self@,
                    self@ == self.secs * NANOS_PER_SEC + self.nanos,
                    other@ == other.secs * NANOS_PER_SEC + other.nanos,
                    self.nanos < NANOS_PER_SEC,
                    other.nanos < NANOS_PER_SEC,
            ;
            Duration { secs: self.secs - other.secs, nanos: self.nanos - other.nanos }
        } else {
            assert(other.secs + 1 <= self.secs) by (nonlinear_arith)
                requires
                    other@ <= self@,
                    self@ == self.secs * NANOS_PER_SEC + self.nanos,
                    other@ == other.secs * NANOS_PER_SEC + other.nanos,
                    self.nanos < other.nanos,
                    other.nanos < NANOS_PER_SEC,
            ;
            Duration {
                secs: self.secs - other.secs - 1,
                nanos: self.nanos + NANOS_PER_SEC as u32 - other.nanos,
            }
        }
    }
}


/// Two readings of the system's monotonic clock, in nanoseconds, the second
/// taken after the first.
///
/// Calls `time::precise_time_ns` twice. Claims only that the second reading
/// is no smaller than the first: on Unix (Linux and the like) the crate reads
/// `CLOCK_MONOTONIC`, on macOS `mach_absolute_time`, on Windows the
/// performance counter, none of which goes back. (On targets where the crate
/// falls back to the wall clock, such as WASI, this claim would not hold.)
/// Nothing else is claimed: the readings depend on when the calls are made.
#[verifier::external_body]
pub(crate) fn clock_readings() -> (r: (u64, u64))
    ensures
        r.0 <= r.1,
{
    let first = time::precise_time_ns();
    let second = time::precise_time_ns();
    (first, second)
}

/// `n` nanoseconds, rounded to the nearest whole second (halves round up) when
/// `rounded` holds, and left as they are otherwise.
pub open spec fn rounded_nanos(n: nat, rounded: bool) -> nat {
    if rounded {
        let secs = n / (NANOS_PER_SEC as nat);
        let up: nat = if n % (NANOS_PER_SEC as nat) >= HALF_SEC_NANOS { 1 } else { 0 };
        (secs + up) * (NANOS_PER_SEC as nat)
    } else {
        n
    }
}

/// Whether rounding `n` nanoseconds up to the next whole second would pass the
/// largest number of seconds that a `Duration` can hold.
pub open spec fn rounding_overflows(n: nat, rounded: bool) -> bool {
    &&& rounded
    &&& n % (NANOS_PER_SEC as nat) >= HALF_SEC_NANOS
    &&& n / (NANOS_PER_SEC as nat) >= u64::MAX
}

/// Splits `d` into seconds and sub-second nanoseconds, rounding to the nearest
/// whole second when `rounded` holds.
fn round_duration(d: Duration, rounded: bool) -> (r: Duration)
    requires
        !rounding_overflows(d@, rounded),
    ensures
        r@ == rounded_nanos(d@, rounded),
{
    let mut secs = d.as_secs();
    let mut ssn = d.subsec_nanos();
    if rounded {
        if ssn >= HALF_SEC_NANOS {
            secs = secs + 1;
        }
        ssn = 0;
    }
    Duration::new(secs, ssn)
}

/// Elapsed playback time of an action, as reported to clients.
#[derive(Clone, Copy, Debug, PartialEq)]
pub struct DurationInfo {
    /// Time elapsed (or, if `pos` is false, time until the action starts).
    pub elapsed: Duration,
    /// Whether `elapsed` counts up from the start (true) or down to it (false).
    pub pos: bool,
    /// The action's estimated total duration, if known.
    pub est_duration: Option<Duration>,
}

/// Elapsed playback time of a running action, as an action keeps it.
#[derive(Clone, Copy, Debug, PartialEq)]
pub struct DurationInfoInt {
    /// Time elapsed since the action started.
    pub duration: Duration,
    /// When the action starts, on the monotonic clock, in nanoseconds.
    pub start_time: u64,
    /// The action's estimated total duration, if known.
    pub est_duration: Option<Duration>,
}

impl DurationInfo {
    /// Converts a number of nanoseconds into a `Duration`.
    pub fn nanos_to_dur(nanos: u64) -> (d: Duration)
        ensures
            d@ == nanos,
    {
        let secs = nanos / NANOS_PER_SEC;
        let ssn = nanos % NANOS_PER_SEC;
        Duration::new(secs, ssn as u32)
    }

    /// The elapsed time, rounded to the nearest second if `rounded`, and
    /// whether it counts up from the start.
    pub fn elapsed(&self, rounded: bool) -> (r: (Duration, bool))
        requires
            !rounding_overflows(self.elapsed@, rounded),
        ensures
            r.0@ == rounded_nanos(self.elapsed@, rounded),
            r.1 == self.pos,
    {
        (round_duration(self.elapsed, rounded), self.pos)
    }

    /// The report of `v` when the monotonic clock reads `now`.
    pub fn from_int_at(v: DurationInfoInt, now: u64) -> (r: DurationInfo)
        ensures
            r.elapsed@ == v.elapsed_nanos_at(now),
            r.pos == !(v.start_time > now),
            r.est_duration == v.est_duration,
    {
        let (elapsed, pos) = v.elapsed_at(now, false);
        DurationInfo { elapsed, pos, est_duration: v.est_duration }
    }

    /// The report of `v`, read against the monotonic clock now.
    pub fn from_int(v: DurationInfoInt) -> (r: DurationInfo)
        ensures
            r.pos ==> r.elapsed@ == v.duration@,
            !r.pos ==> exists|now: u64|
                now < v.start_time && r.elapsed@ == #[trigger] v.elapsed_nanos_at(now),
            r.est_duration == v.est_duration,
    {
        let now = clock_readings().0;
        DurationInfo::from_int_at(v, now)
    }
}

impl DurationInfoInt {
    /// The time, in nanoseconds, that `elapsed_at(now, false)` reports: the time
    /// until the start if it lies after `now`, the elapsed duration otherwise.
    pub open spec fn elapsed_nanos_at(self, now: u64) -> nat {
        if self.start_time > now {
            (self.start_time - now) as nat
        } else {
            self.duration@
        }
    }

    /// The elapsed time when the monotonic clock reads `now`, rounded to the
    /// nearest second if `rounded`, and whether it counts up from the start.
    pub fn elapsed_at(&self, now: u64, rounded: bool) -> (r: (Duration, bool))
        requires
            !(self.start_time > now) ==> !rounding_overflows(self.duration@, rounded),
        ensures
            r.0@ == rounded_nanos(self.elapsed_nanos_at(now), rounded),
            r.1 == !(self.start_time > now),
    {
        if self.start_time > now {
            let delta = self.start_time - now;
            let d = Duration::from_nanos(delta);
            let s = d.as_secs();
            assert(s < u64::MAX) by (nonlinear_arith)
                requires
                    s == delta / 1_000_000_000u64,
                    delta <= u64::MAX,
            ;
            (round_duration(d, rounded), false)
        } else {
            (round_duration(self.duration, rounded), true)
        }
    }

    /// The elapsed time, read against the monotonic clock now, rounded to the
    /// nearest second if `rounded`, and whether it counts up from the start.
    pub fn elapsed(&self, rounded: bool) -> (r: (Duration, bool))
        requires
            !rounding_overflows(self.duration@, rounded),
        ensures
            r.1 ==> r.0@ == rounded_nanos(self.duration@, rounded),
            !r.1 ==> exists|now: u64|
                now < self.start_time && r.0@ == rounded_nanos(#[trigger] self.elapsed_nanos_at(now), rounded),
    {
        let now = clock_readings().0;
        self.elapsed_at(now, rounded)
    }
}


/// How a span of `n` nanoseconds is written: `[HH:]MM:SS`, followed by `.mmm`
/// when `show_millis` holds. The hours are written only when there is at least
/// one; each field is zero-padded (hours and minutes and seconds to two digits,
/// milliseconds to three).
pub open spec fn duration_text(n: nat, show_millis: bool) -> Seq<char> {
    let secs = n / (NANOS_PER_SEC as nat);
    let hrs = secs / 3600;
    let mins = (secs % 3600) / 60;
    let just_secs = secs % 60;
    let millis = (n % (NANOS_PER_SEC as nat)) / 1_000_000;
    let hours_part = if hrs > 0 { padded_decimal(hrs, 2).push(':') } else { Seq::empty() };
    let base = hours_part + padded_decimal(mins, 2).push(':') + padded_decimal(just_secs, 2);
    if show_millis {
        base.push('.') + padded_decimal(millis, 3)
    } else {
        base
    }
}

/// Writes `dur` as `[HH:]MM:SS[.mmm]` (see `duration_text`).
pub fn format_duration(dur: Duration, show_millis: bool) -> (s: String)
    ensures
        s@ == duration_text(dur@, show_millis),
{
    let secs = dur.as_secs();
    let hrs = secs / 3600;
    let mins = (secs / 60).saturating_sub(60 * hrs);
    let just_secs = secs.saturating_sub(60 * mins).saturating_sub(3600 * hrs);
    let millis = dur.subsec_nanos() as u64 / 1_000_000;
    proof {
        assert(mins == (secs % 3600) / 60 && just_secs == secs % 60) by (nonlinear_arith)
            requires
                hrs == secs / 3600,
                mins == if secs / 60 >= 60 * hrs { secs / 60 - 60 * hrs } else { 0 },
                just_secs == if secs >= 60 * mins + 3600 * hrs {
                    secs - 60 * mins - 3600 * hrs
                } else {
                    0
                },
        ;
    }
    let mut s = String::new();
    if hrs > 0 {
        push_padded_decimal(&mut s, hrs, 2);
        proof { reveal_strlit(":"); }
        s.append(":");
    }
    let ghost hours_part = s@;
    push_padded_decimal(&mut s, mins, 2);
    proof { reveal_strlit(":"); }
    s.append(":");
    push_padded_decimal(&mut s, just_secs, 2);
    if show_millis {
        proof { reveal_strlit("."); }
        s.append(".");
        push_padded_decimal(&mut s, millis, 3);
    }
    proof {
        assert(hours_part =~= (if hrs > 0 { padded_decimal(hrs as nat, 2).push(':') } else {
            Seq::empty()
        }));
        assert(s@ =~= duration_text(dur@, show_millis));
    }
    s
}

} // verus!
