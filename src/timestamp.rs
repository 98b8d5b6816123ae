use vstd::prelude::*;

verus! {

/// Nanoseconds in one second.
pub const NANOS_PER_SEC: i128 = 1_000_000_000;

/// Nanoseconds in one whole day.
pub const NANOS_PER_DAY: i128 = 86_400_000_000_000;

/// An absolute moment in UTC: whole seconds since the Unix epoch and the
/// nanoseconds past that second. A moment inside a leap second is carried,
/// as chrono carries it, on the second before with a nanosecond count of one
/// second or more.
#[derive(Clone, Copy, Debug, PartialEq, Eq, Structural)]
pub struct Instant {
    pub secs: i64,
    pub nanos: u32,
}

/// `x / d` rounded toward zero, as Rust's integer division does.
pub open spec fn div_toward_zero(x: int, d: int) -> int
    recommends
        d > 0,
{
    if x >= 0 {
        x / d
    } else {
        -((-x) / d)
    }
}

impl Instant {
    /// The nanoseconds stay under two seconds, and reach one second only on
    /// a second that ends in :59, where a leap second can fall.
    pub open spec fn wf(self) -> bool {
        &&& self.nanos < 2 * NANOS_PER_SEC
        &&& self.nanos >= NANOS_PER_SEC ==> (self.secs as int) % 60 == 59
    }

    /// The moment as a count of nanoseconds since the Unix epoch.
    pub open spec fn total_nanos(self) -> int {
        self.secs * NANOS_PER_SEC + self.nanos
    }

    pub fn new(secs: i64, nanos: u32) -> (r: Instant)
        requires
            (Instant { secs, nanos }).wf(),
        ensures
            r.wf(),
            r.secs == secs,
            r.nanos == nanos,
    {
        Instant { secs, nanos }
    }

    fn total_nanos_exec(&self) -> (r: i128)
        ensures
            r == self.total_nanos(),
    {
        (self.secs as i128) * NANOS_PER_SEC + (self.nanos as i128)
    }
}

/// Seconds in one whole day.
pub const SECS_PER_DAY: i64 = 86_400;

/// The second of its UTC day that a moment falls in.
pub open spec fn second_of_day(t: Instant) -> int {
    (t.secs as int) % (SECS_PER_DAY as int)
}

/// The leap second that one moment has counted and the other has not: a
/// later second of the day than an instant inside a leap second has that
/// leap second behind it.
pub open spec fn leap_correction(later: Instant, earlier: Instant) -> int {
    if second_of_day(later) > second_of_day(earlier) && earlier.nanos >= NANOS_PER_SEC {
        NANOS_PER_SEC as int
    } else if second_of_day(later) < second_of_day(earlier) && later.nanos >= NANOS_PER_SEC {
        -NANOS_PER_SEC
    } else {
        0
    }
}

/// The signed time from `from` to `to` in nanoseconds, leap seconds
/// counted as chrono counts them.
pub open spec fn elapsed_nanos(to: Instant, from: Instant) -> int {
    to.total_nanos() - from.total_nanos() + leap_correction(to, from)
}

/// Whole days from `now` until `expires`, the fraction of a day dropped
/// toward zero: negative once `expires` lies a full day or more in the past.
pub open spec fn days_until_spec(expires: Instant, now: Instant) -> int {
    div_toward_zero(elapsed_nanos(expires, now), NANOS_PER_DAY as int)
}

fn second_of_day_exec(t: Instant) -> (r: i64)
    ensures
        r == second_of_day(t),
{
    match t.secs.checked_rem_euclid(SECS_PER_DAY) {
        Some(r) => r,
        None => 0,
    }
}

/// Whole days from `now` until `expires`, rounded toward zero.
pub fn days_until(expires: Instant, now: Instant) -> (r: i64)
    ensures
        r == days_until_spec(expires, now),
{
    let sod_e = second_of_day_exec(expires);
    let sod_n = second_of_day_exec(now);
    let correction: i128 = if sod_e > sod_n && now.nanos as i128 >= NANOS_PER_SEC {
        NANOS_PER_SEC
    } else if sod_e < sod_n && expires.nanos as i128 >= NANOS_PER_SEC {
        -NANOS_PER_SEC
    } else {
        0
    };
    let diff: i128 = expires.total_nanos_exec() - now.total_nanos_exec() + correction;
    if diff >= 0 {
        let q: i128 = diff / NANOS_PER_DAY;
        assert(q <= 300_000_000_000_000);
        q as i64
    } else {
        let q: i128 = (-diff) / NANOS_PER_DAY;
        assert(q <= 300_000_000_000_000);
        -(q as i64)
    }
}

} // verus!
