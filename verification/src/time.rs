//! Frequencies and time spans.
use vstd::prelude::*;

verus! {

/// A clock frequency in hertz.
#[derive(Debug, Clone, Copy, PartialEq, Eq)]
pub struct Hertz(pub u32);

/// A frequency of `value` megahertz.
pub fn mhz(value: u32) -> (r: Hertz)
    requires
        value <= 4294,
    ensures
        r.0 == value * 1_000_000,
{
    Hertz(value * 1_000_000)
}

/// What `embassy_time::Duration::from_secs` holds, in ticks. The tick rate is fixed
/// when a program is built.
pub uninterp spec fn secs_in_ticks(secs: u64) -> u64;

/// A number of milliseconds in ticks, rounded up.
pub open spec fn millis_in_ticks(millis: u64) -> int {
    (millis * secs_in_ticks(1) + 999) / 1000
}

/// `embassy_time::Duration::from_secs`: a number of seconds as ticks, which is that number
/// of times the ticks of one second. The bound keeps the product with the highest tick rate
/// in range.
#[verifier::external_body]
pub(crate) fn ticks_from_secs(secs: u64) -> (r: u64)
    requires
        secs <= 0xFFFF,
    ensures
        r == secs_in_ticks(secs),
        r == secs * secs_in_ticks(1),
{
    embassy_time::Duration::from_secs(secs).as_ticks()
}

/// `embassy_time::Duration::from_millis`: a number of milliseconds as ticks, the thousandth
/// part of as many seconds, rounded up. The bound keeps the product with the highest tick
/// rate in range.
#[verifier::external_body]
pub(crate) fn ticks_from_millis(millis: u64) -> (r: u64)
    requires
        millis <= 0xFFFF,
    ensures
        r == millis_in_ticks(millis),
{
    embassy_time::Duration::from_millis(millis).as_ticks()
}

} // verus!
