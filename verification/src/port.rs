//! Port identities and the singleton peripheral handle.
//!
//! Each physical I2C controller on the chip gets one distinct, move-only
//! identity type carrying its fixed port index. Claiming a handle for a
//! port consumes the identity, so the type system — not a runtime check —
//! keeps two live handles for one port from existing in the same process.
//! Which ports exist is fixed hardware topology; this crate models a chip
//! variant with two controllers.

use vstd::prelude::*;
use crate::arbiter::claim_accepted;
use crate::arbiter::claim_next;
use crate::arbiter::DriverArbiter;
use crate::arbiter::DriverFamily;

verus! {

/// Capability of an I2C controller identity: it knows which physical port
/// it addresses. Identities are `Send`, so a thread may be handed ownership
/// of a controller, while move-only ownership keeps the handle singular.
pub trait I2c: Send + Sized {
    /// The fixed port index of this identity.
    spec fn spec_port() -> int;

    /// The port index the native driver uses to address this controller;
    /// the native port type is a C `int`, `i32` on this platform.
    fn port() -> (p: i32)
        ensures
            p as int == Self::spec_port(),
            0 <= p,
    ;
}

/// Identity of the first I2C controller. Move-only: claiming a handle
/// consumes it, and it deliberately has no way to be duplicated.
pub struct I2C0 {
    _private: (),
}

impl I2C0 {
    /// Conjure the identity. To keep the one-handle-per-port guarantee, a
    /// program must call this at most once per run, during initialisation,
    /// and pass the value by move from then on.
    pub fn new() -> I2C0 {
        I2C0 { _private: () }
    }
}

impl I2c for I2C0 {
    open spec fn spec_port() -> int {
        0
    }

    fn port() -> (p: i32) {
        0
    }
}

/// Identity of the second I2C controller, present on chip variants with two
/// controllers. Move-only, like [`I2C0`].
pub struct I2C1 {
    _private: (),
}

impl I2C1 {
    /// Conjure the identity; the same at-most-once discipline as
    /// [`I2C0::new`] applies.
    pub fn new() -> I2C1 {
        I2C1 { _private: () }
    }
}

impl I2c for I2C1 {
    open spec fn spec_port() -> int {
        1
    }

    fn port() -> (p: i32) {
        1
    }
}

/// An exclusively owned I2C controller, bound to the driver family the
/// arbiter recorded when it was claimed. Holding one proves sole ownership
/// of the port: acquiring it consumed the identity.
pub struct ClaimedPort<P: I2c> {
    peripheral: P,
}

impl<P: I2c> ClaimedPort<P> {
    /// Take ownership of a controller for driver family `family`: consume
    /// the identity and record the family with the arbiter in one step, as
    /// a driver constructor does. On the fatal family conflict the identity
    /// comes back unchanged in `Err`, and the arbiter is unchanged too; the
    /// embedding program must then terminate rather than continue.
    pub fn claim(peripheral: P, arbiter: &mut DriverArbiter, family: DriverFamily) -> (r: Result<
        ClaimedPort<P>,
        P,
    >)
        ensures
            r is Ok <==> claim_accepted(old(arbiter)@, family),
            final(arbiter)@ == claim_next(old(arbiter)@, family),
            r is Err ==> final(arbiter)@ == old(arbiter)@,
    {
        if arbiter.try_claim(family) {
            Ok(ClaimedPort { peripheral })
        } else {
            Err(peripheral)
        }
    }

    /// The port index of the owned controller.
    pub fn port(&self) -> (p: i32)
        ensures
            p as int == P::spec_port(),
            0 <= p,
    {
        P::port()
    }
}

} // verus!
