//! Safe core of a binding to a time-of-flight ranging sensor driver.
//!
//! The ranging driver itself is an opaque native component: it owns the
//! register protocol, the calibration math and the ranging state machine,
//! and reports the outcome of every entry point as a single raw status
//! byte.  This crate holds the parts of the binding that carry real logic
//! and proves them:
//!
//! - the status-byte taxonomy ([`status`]): decoding raw status bytes into
//!   a typed, closed error set and back;
//! - the typed views of the driver's mode bytes ([`modes`]): power mode,
//!   ranging mode and resolution;
//! - the platform bridge ([`platform`]): the transport capability contract
//!   a host implements, the entry points the driver calls through it, and
//!   the pure 4-byte-group buffer swap.
//!
//! The foreign-function shell that hands pointers to the native driver is
//! not part of this crate's verified surface; it consumes these functions
//! and hands them plain values.

pub mod config;
pub mod modes;
pub mod platform;
pub mod status;

pub use config::VL53L7CX_Configuration as Configuration;
pub use modes::{PowerMode, RangingMode, Resolution};
pub use platform::PlatformExt;
pub use status::{wrap_result, Error};
