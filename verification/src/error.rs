//! Mapping from native driver status codes to a portable error taxonomy.
//!
//! The native driver layer reports failures as an integer status code. This
//! module classifies every such code into a broad, portable kind, in the
//! shape of the standard embedded I2C error interface, and keeps the
//! originating code for diagnostics. The mapping is total: a code the table
//! does not recognise degrades to [`ErrorKind::Other`] rather than failing
//! the mapping itself.

use vstd::prelude::*;

verus! {

// Status codes of the platform SDK's native driver layer, as its C headers
// define them: 0 for success, -1 for a generic command failure, and an
// enumeration starting at 0x101 for the specific conditions.
pub const ESP_OK: i32 = 0;
pub const ESP_FAIL: i32 = -1;
pub const ESP_ERR_NO_MEM: i32 = 0x101;
pub const ESP_ERR_INVALID_ARG: i32 = 0x102;
pub const ESP_ERR_INVALID_STATE: i32 = 0x103;
pub const ESP_ERR_INVALID_SIZE: i32 = 0x104;
pub const ESP_ERR_NOT_FOUND: i32 = 0x105;
pub const ESP_ERR_NOT_SUPPORTED: i32 = 0x106;
pub const ESP_ERR_TIMEOUT: i32 = 0x107;
pub const ESP_ERR_INVALID_RESPONSE: i32 = 0x108;
pub const ESP_ERR_INVALID_CRC: i32 = 0x109;
pub const ESP_ERR_INVALID_VERSION: i32 = 0x10A;
pub const ESP_ERR_INVALID_MAC: i32 = 0x10B;
pub const ESP_ERR_NOT_FINISHED: i32 = 0x10C;

/// Broad, portable classification of an I2C failure, following the kind set
/// of the standard embedded I2C error interface.
#[derive(Clone, Copy, PartialEq, Eq, Structural, Debug)]
pub enum ErrorKind {
    /// A fault on the bus itself, such as an illegal line state.
    Bus,
    /// The controller lost bus arbitration to another master.
    ArbitrationLoss,
    /// The addressed device did not acknowledge.
    NoAcknowledge,
    /// Data arrived faster than it could be handled.
    Overrun,
    /// The transaction did not finish within its timeout.
    Timeout,
    /// Any condition the table does not classify more precisely.
    Other,
}

/// The kind every native code maps to. The native driver reports a refused
/// (not acknowledged) transaction as the generic command failure, a stuck or
/// busy bus as a timeout, and an illegal bus state as a bus fault; arbitration
/// loss and overruns surface only through lower-level status registers, never
/// as a status code, so no code maps to those kinds here. Everything else,
/// success included, degrades to `Other`.
pub open spec fn kind_of_native(code: i32) -> ErrorKind {
    if code == ESP_FAIL {
        ErrorKind::NoAcknowledge
    } else if code == ESP_ERR_TIMEOUT {
        ErrorKind::Timeout
    } else if code == ESP_ERR_INVALID_STATE {
        ErrorKind::Bus
    } else {
        ErrorKind::Other
    }
}

/// Classify one native status code; total over all of `i32`.
pub fn classify_native(code: i32) -> (kind: ErrorKind)
    ensures
        kind == kind_of_native(code),
{
    if code == ESP_FAIL {
        ErrorKind::NoAcknowledge
    } else if code == ESP_ERR_TIMEOUT {
        ErrorKind::Timeout
    } else if code == ESP_ERR_INVALID_STATE {
        ErrorKind::Bus
    } else {
        ErrorKind::Other
    }
}

/// A portable I2C error: the broad kind, plus the originating native status
/// code for diagnostics.
#[derive(Clone, Copy, Debug)]
pub struct I2cError {
    kind: ErrorKind,
    native_code: i32,
}

impl I2cError {
    /// The kind this error carries.
    pub closed spec fn spec_kind(&self) -> ErrorKind {
        self.kind
    }

    /// The native status code this error carries.
    pub closed spec fn spec_native_code(&self) -> i32 {
        self.native_code
    }

    /// The kind is never free-standing: it is always the classification of
    /// the carried native code.
    pub open spec fn wf(&self) -> bool {
        self.spec_kind() == kind_of_native(self.spec_native_code())
    }

    /// Build the portable error for one native status code. Total: every
    /// code yields an error value, with its classification as the kind and
    /// the code itself preserved for diagnostics.
    pub fn from_native(code: i32) -> (e: I2cError)
        ensures
            e.spec_kind() == kind_of_native(code),
            e.spec_native_code() == code,
            e.wf(),
    {
        I2cError { kind: classify_native(code), native_code: code }
    }

    /// The broad portable classification.
    pub fn kind(&self) -> (kind: ErrorKind)
        ensures
            kind == self.spec_kind(),
    {
        self.kind
    }

    /// The originating native status code.
    pub fn native_code(&self) -> (code: i32)
        ensures
            code == self.spec_native_code(),
    {
        self.native_code
    }
}

} // verus!
