//! The wall clock, read as nanoseconds since the Unix epoch.

use vstd::prelude::*;

verus! {

/// Whether `n` nanoseconds since the epoch is an instant that the clock can
/// show: whole seconds that fit in 64 bits, and less than a second more.
pub open spec fn is_reading(n: int) -> bool {
    i64::MIN * 1_000_000_000 <= n < (i64::MAX + 1) * 1_000_000_000
}

/// Reads the wall clock with `time::get_time` and hands back the two fields
/// of its `Timespec`: the seconds since 1970-01-01T00:00:00Z, and the
/// nanoseconds past that second. Nothing is claimed of which instant comes
/// back, only that the nanoseconds are at least 0 and less than a second:
/// `get_time` builds its result with `Timespec::new`, which returns no other.
#[verifier::external_body]
fn clock() -> (t: (i64, i32))
    ensures
        0 <= t.1 < 1_000_000_000,
{
    let ts = time::get_time();
    (ts.sec, ts.nsec)
}

/// The instant `sec` seconds and `nsec` nanoseconds after the epoch, in
/// nanoseconds.
pub fn nanoseconds(sec: i64, nsec: i32) -> (n: i128)
    ensures
        n == sec * 1_000_000_000 + nsec,
{
    (sec as i128) * 1_000_000_000 + (nsec as i128)
}

/// The seconds and the nanoseconds past them at which the instant `x`, in
/// nanoseconds since the epoch, lies: the pair that `nanoseconds` turns back
/// into `x`. The nanoseconds are not negative, so that an instant before the
/// epoch has its seconds rounded down.
pub fn from_nanoseconds(x: i64) -> (t: (i64, i32))
    ensures
        t.0 * 1_000_000_000 + t.1 == x,
        0 <= t.1 < 1_000_000_000,
{
    let sec: i64 = x / 1_000_000_000;
    let nsec: i64 = x % 1_000_000_000;
    if nsec < 0 {
        (sec - 1, (nsec + 1_000_000_000) as i32)
    } else {
        (sec, nsec as i32)
    }
}

/// The current instant, in nanoseconds since the epoch.
pub fn now() -> (n: i128)
    ensures
        is_reading(n as int),
{
    let t = clock();
    nanoseconds(t.0, t.1)
}

} // verus!
