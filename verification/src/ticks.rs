//! Duration-to-tick conversion for the native driver's clock domain.
//!
//! The native driver takes timeouts as counts of APB clock ticks. The APB
//! clock runs at 80 MHz, so one tick is 12.5 ns; integer arithmetic
//! truncates the period to 12 ns, and that truncated period is kept here
//! deliberately, since downstream timing code depends on the existing skew.
//! Conversion always rounds up, so a nonzero duration never silently turns
//! into "no timeout".

use vstd::prelude::*;
use core::time::Duration;

verus! {

/// Nanoseconds per APB clock tick, truncated to a whole number of
/// nanoseconds by integer division of the 80 MHz clock period.
pub const APB_TICK_PERIOD_NS: u32 = 1_000_000_000 / 80_000_000;

/// The tick count for a duration of `nanos` nanoseconds: the ceiling of
/// `nanos / APB_TICK_PERIOD_NS`, written with the usual rounding-up trick.
pub open spec fn apb_ticks(nanos: int) -> int {
    (nanos + APB_TICK_PERIOD_NS as int - 1) / (APB_TICK_PERIOD_NS as int)
}

/// The total number of whole nanoseconds a duration contains; the result of
/// `core::time::Duration::as_nanos`, which depends on the duration value
/// alone.
pub uninterp spec fn duration_nanos(d: Duration) -> u128;

/// Relies on `core::time::Duration::as_nanos`: the total number of whole
/// nanoseconds of the duration, a pure function of the duration value. A
/// duration holds at most `u64::MAX` seconds plus a sub-second part below
/// one billion nanoseconds, which bounds the total.
#[verifier::external_body]
fn total_nanos(d: &Duration) -> (n: u128)
    ensures
        n == duration_nanos(*d),
        n <= 0xFFFF_FFFF_FFFF_FFFFu128 * 1_000_000_000 + 999_999_999,
{
    d.as_nanos()
}

/// A timeout expressed in APB clock ticks, as the native driver expects it:
/// a signed C `int`, `i32` on this platform.
#[derive(Clone, Copy, Debug)]
pub struct APBTickType {
    pub ticks: i32,
}

impl View for APBTickType {
    type V = int;

    open spec fn view(&self) -> int {
        self.ticks as int
    }
}

impl APBTickType {
    /// The ceiling conversion on a plain nanosecond count.
    ///
    /// Tick counts too large for the native tick type are a documented,
    /// unchecked precondition of the conversion, so the bound stands here
    /// as a precondition rather than a runtime guard.
    pub fn from_nanos(nanos: u128) -> (r: APBTickType)
        requires
            apb_ticks(nanos as int) <= 0x7fff_ffff,
        ensures
            r@ == apb_ticks(nanos as int),
            nanos == 0 ==> r@ == 0,
            nanos > 0 ==> r@ >= 1,
    {
        let t: u128 = (nanos + (APB_TICK_PERIOD_NS as u128 - 1)) / APB_TICK_PERIOD_NS as u128;
        APBTickType { ticks: t as i32 }
    }

    /// The tick count this value carries.
    pub fn ticks(&self) -> (t: i32)
        ensures
            t as int == self@,
    {
        self.ticks
    }
}

impl From<Duration> for APBTickType {
    /// The conversion the native driver's callers use: read the duration's
    /// nanosecond count and round up to whole ticks. A tick count beyond the
    /// native tick type wraps as the `as` cast does; that case is a
    /// documented, unchecked precondition violation, not a guarded error.
    fn from(duration: Duration) -> (r: APBTickType) {
        let n: u128 = total_nanos(&duration);
        let t: u128 = (n + (APB_TICK_PERIOD_NS as u128 - 1)) / APB_TICK_PERIOD_NS as u128;
        let ticks: i32 = #[verifier::truncate] (t as i32);
        APBTickType { ticks }
    }
}

impl vstd::std_specs::convert::FromSpecImpl<Duration> for APBTickType {
    open spec fn obeys_from_spec() -> bool {
        true
    }

    open spec fn from_spec(duration: Duration) -> APBTickType {
        APBTickType { ticks: apb_ticks(duration_nanos(duration) as int) as i32 }
    }
}

/// Law: the conversion is a true ceiling. The tick count covers the whole
/// duration, and no smaller count does; in particular a nonzero duration
/// never converts to zero ticks.
pub proof fn lemma_ticks_are_ceiling(nanos: int)
    requires
        nanos >= 0,
    ensures
        apb_ticks(nanos) * (APB_TICK_PERIOD_NS as int) >= nanos,
        nanos > 0 ==> (apb_ticks(nanos) - 1) * (APB_TICK_PERIOD_NS as int) < nanos,
        nanos > 0 ==> apb_ticks(nanos) >= 1,
        nanos == 0 ==> apb_ticks(nanos) == 0,
{
    let p = APB_TICK_PERIOD_NS as int;
    let q = apb_ticks(nanos);
    assert(q == (nanos + p - 1) / p);
    assert(q * p >= nanos && (nanos > 0 ==> (q - 1) * p < nanos)) by (nonlinear_arith)
        requires
            p == 12,
            nanos >= 0,
            q == (nanos + p - 1) / p,
    ;
}

} // verus!
