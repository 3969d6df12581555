//! Core of an I2C peripheral access layer for a microcontroller platform
//! whose SDK ships two mutually incompatible native driver families.
//!
//! The heart of the crate is the driver-exclusivity arbiter: a three-valued
//! selection flag that records which driver family a process has committed
//! to, so that the two families can never touch the same hardware registers
//! in one program run. Around it stand the port identities (one move-only
//! type per physical controller), the duration-to-tick converter for the
//! native driver's clock domain, and the mapping from native status codes to
//! a portable error taxonomy.

pub mod arbiter;
pub mod error;
pub mod port;
pub mod ticks;

pub use arbiter::check_and_set_legacy_driver;
pub use arbiter::check_and_set_modern_driver;
pub use arbiter::DriverArbiter;
pub use arbiter::DriverFamily;
pub use arbiter::DriverSelection;
pub use error::ErrorKind;
pub use error::I2cError;
pub use port::ClaimedPort;
pub use port::I2c;
pub use port::I2C0;
pub use port::I2C1;
pub use ticks::APBTickType;
pub use ticks::APB_TICK_PERIOD_NS;
