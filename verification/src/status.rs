//! The driver's raw status bytes and their typed error taxonomy.
//!
//! Every entry point of the ranging driver reports its outcome as a single
//! raw status byte.  A small closed set of those bytes is known to the
//! binding; each one maps to exactly one [`Error`] variant, and any byte
//! outside the set is folded into [`Error::Unknown`] rather than being
//! silently swallowed.

use vstd::prelude::*;

verus! {

/// Raw status byte the driver reports on success.
pub const STATUS_OK: u8 = 0;

/// Raw status byte for a timeout while talking to the sensor.
pub const STATUS_TIMEOUT_ERROR: u8 = 1;

/// Raw status byte for a corrupted frame.
pub const STATUS_CORRUPTED_FRAME: u8 = 2;

/// Raw status byte for a failed crosstalk calibration.
pub const STATUS_XTALK_FAILED: u8 = 4;

/// Raw status byte for an error reported by the sensor's microcontroller.
pub const MCU_ERROR: u8 = 66;

/// Raw status byte for an invalid parameter.
pub const STATUS_INVALID_PARAM: u8 = 127;

/// Raw status byte for a generic, unspecified error.
pub const STATUS_ERROR: u8 = 255;

/// Typed view of the driver's non-OK status bytes.
///
/// `Unknown` stands for every status byte outside the known closed set,
/// so that a future driver revision cannot make the binding misbehave.
#[derive(Debug, Clone, Copy, PartialEq, Eq)]
pub enum Error {
    StatusTimeout,
    StatusCorruptedFrame,
    StatusXtalkFailed,
    McuError,
    StatusInvalidParam,
    StatusError,
    Unknown,
}

/// The known closed set of non-OK status bytes.
pub open spec fn is_known_error_code(b: u8) -> bool {
    ||| b == STATUS_TIMEOUT_ERROR
    ||| b == STATUS_CORRUPTED_FRAME
    ||| b == STATUS_XTALK_FAILED
    ||| b == MCU_ERROR
    ||| b == STATUS_INVALID_PARAM
    ||| b == STATUS_ERROR
}

/// The error variant that a raw status byte denotes.
pub open spec fn error_of(b: u8) -> Error {
    if b == STATUS_TIMEOUT_ERROR {
        Error::StatusTimeout
    } else if b == STATUS_CORRUPTED_FRAME {
        Error::StatusCorruptedFrame
    } else if b == STATUS_XTALK_FAILED {
        Error::StatusXtalkFailed
    } else if b == MCU_ERROR {
        Error::McuError
    } else if b == STATUS_INVALID_PARAM {
        Error::StatusInvalidParam
    } else if b == STATUS_ERROR {
        Error::StatusError
    } else {
        Error::Unknown
    }
}

/// The raw status byte an error variant is reported as.
///
/// `Unknown` has no originating byte of its own; it is reported as the
/// generic error code.
pub open spec fn raw_code_of(e: Error) -> u8 {
    match e {
        Error::StatusTimeout => STATUS_TIMEOUT_ERROR,
        Error::StatusCorruptedFrame => STATUS_CORRUPTED_FRAME,
        Error::StatusXtalkFailed => STATUS_XTALK_FAILED,
        Error::McuError => MCU_ERROR,
        Error::StatusInvalidParam => STATUS_INVALID_PARAM,
        Error::StatusError => STATUS_ERROR,
        Error::Unknown => STATUS_ERROR,
    }
}

impl Error {
    /// Decode a non-OK raw status byte into its error variant.
    pub fn from_u8(e: u8) -> (r: Self)
        ensures
            r == error_of(e),
    {
        if e == STATUS_TIMEOUT_ERROR {
            Error::StatusTimeout
        } else if e == STATUS_CORRUPTED_FRAME {
            Error::StatusCorruptedFrame
        } else if e == STATUS_XTALK_FAILED {
            Error::StatusXtalkFailed
        } else if e == MCU_ERROR {
            Error::McuError
        } else if e == STATUS_INVALID_PARAM {
            Error::StatusInvalidParam
        } else if e == STATUS_ERROR {
            Error::StatusError
        } else {
            Error::Unknown
        }
    }

    /// The raw status byte this error is reported back to the driver as.
    pub fn raw_code(self) -> (r: u8)
        ensures
            r == raw_code_of(self),
    {
        match self {
            Error::StatusTimeout => STATUS_TIMEOUT_ERROR,
            Error::StatusCorruptedFrame => STATUS_CORRUPTED_FRAME,
            Error::StatusXtalkFailed => STATUS_XTALK_FAILED,
            Error::McuError => MCU_ERROR,
            Error::StatusInvalidParam => STATUS_INVALID_PARAM,
            Error::StatusError => STATUS_ERROR,
            Error::Unknown => STATUS_ERROR,
        }
    }
}

/// Interpret a raw status byte from the driver: OK yields the prepared
/// success value, anything else the matching error variant.
pub fn wrap_result<T>(ret: u8, v: T) -> (r: Result<T, Error>)
    ensures
        r is Ok <==> ret == STATUS_OK,
        ret == STATUS_OK ==> r == Result::<T, Error>::Ok(v),
        ret != STATUS_OK ==> r == Result::<T, Error>::Err(error_of(ret)),
{
    if ret == STATUS_OK {
        Ok(v)
    } else {
        Err(Error::from_u8(ret))
    }
}

/// Interpret a raw status byte together with a raw flag byte the driver
/// wrote through an out-parameter: OK yields whether the flag byte is one,
/// anything else the matching error variant.
pub fn wrap_flag(ret: u8, raw: u8) -> (r: Result<bool, Error>)
    ensures
        r is Ok <==> ret == STATUS_OK,
        ret == STATUS_OK ==> r == Result::<bool, Error>::Ok(raw == 1),
        ret != STATUS_OK ==> r == Result::<bool, Error>::Err(error_of(ret)),
{
    wrap_result(ret, raw == 1)
}

/// Every raw status byte in the known closed set maps to exactly one error
/// variant, and mapping an error variant back to its originating raw byte is
/// stable: decoding then re-encoding a known byte returns that byte, and
/// re-encoding then decoding any variant but `Unknown` returns that variant.
pub proof fn lemma_error_code_round_trip()
    ensures
        forall|b: u8| is_known_error_code(b) ==> #[trigger] raw_code_of(error_of(b)) == b,
        forall|e: Error| e != Error::Unknown ==> #[trigger] error_of(raw_code_of(e)) == e,
{
}

} // verus!
