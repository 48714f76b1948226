//! Typed views of the driver's mode bytes.
//!
//! The driver stores its power mode, ranging mode and resolution as raw
//! bytes drawn from small closed sets.  Each enum here names one of those
//! sets; decoding is only defined on the set's members, exactly as the
//! driver documents them.

use vstd::prelude::*;

use crate::status::{error_of, Error, STATUS_OK};

verus! {

/// Raw byte for the sleeping power mode.
pub const POWER_MODE_SLEEP: u8 = 0;

/// Raw byte for the awake power mode.
pub const POWER_MODE_WAKEUP: u8 = 1;

/// Raw byte for continuous ranging.
pub const RANGING_MODE_CONTINUOUS: u8 = 1;

/// Raw byte for autonomous ranging.
pub const RANGING_MODE_AUTONOMOUS: u8 = 3;

/// Raw byte for the 4x4 zone resolution.
pub const RESOLUTION_4X4: u8 = 16;

/// Raw byte for the 8x8 zone resolution.
pub const RESOLUTION_8X8: u8 = 64;

/// The sensor's power state.
#[derive(Debug, Clone, Copy, PartialEq, Eq)]
pub enum PowerMode {
    Sleep,
    Wakeup,
}

/// The ranging scheduling mode.
#[derive(Debug, Clone, Copy, PartialEq, Eq)]
pub enum RangingMode {
    Continuous,
    Autonomous,
}

/// The zone resolution of the ranging grid.
#[derive(Debug, Clone, Copy, PartialEq, Eq)]
pub enum Resolution {
    Res8x8,
    Res4x4,
}

/// The power mode a raw byte denotes; only defined on the two mode bytes.
pub open spec fn power_mode_of(v: u8) -> PowerMode
    recommends
        v == POWER_MODE_SLEEP || v == POWER_MODE_WAKEUP,
{
    if v == POWER_MODE_SLEEP {
        PowerMode::Sleep
    } else {
        PowerMode::Wakeup
    }
}

/// The ranging mode a raw byte denotes; only defined on the two mode bytes.
pub open spec fn ranging_mode_of(v: u8) -> RangingMode
    recommends
        v == RANGING_MODE_CONTINUOUS || v == RANGING_MODE_AUTONOMOUS,
{
    if v == RANGING_MODE_CONTINUOUS {
        RangingMode::Continuous
    } else {
        RangingMode::Autonomous
    }
}

/// The resolution a raw byte denotes; only defined on the two resolution
/// bytes.
pub open spec fn resolution_of(v: u8) -> Resolution
    recommends
        v == RESOLUTION_4X4 || v == RESOLUTION_8X8,
{
    if v == RESOLUTION_4X4 {
        Resolution::Res4x4
    } else {
        Resolution::Res8x8
    }
}

impl PowerMode {
    /// Decode the raw power-mode byte the driver handed back.
    pub fn from_u8(v: u8) -> (r: Self)
        requires
            v == POWER_MODE_SLEEP || v == POWER_MODE_WAKEUP,
        ensures
            r == power_mode_of(v),
    {
        if v == POWER_MODE_SLEEP {
            PowerMode::Sleep
        } else {
            PowerMode::Wakeup
        }
    }

    /// The raw byte this power mode is handed to the driver as.
    pub fn to_u8(self) -> (r: u8)
        ensures
            power_mode_of(r) == self,
            r == POWER_MODE_SLEEP || r == POWER_MODE_WAKEUP,
    {
        match self {
            PowerMode::Sleep => POWER_MODE_SLEEP,
            PowerMode::Wakeup => POWER_MODE_WAKEUP,
        }
    }

    /// Interpret a get-power-mode outcome: the status byte the driver
    /// returned together with the raw mode byte it wrote.
    pub fn decode(status: u8, raw: u8) -> (r: Result<Self, Error>)
        requires
            status == STATUS_OK ==> raw == POWER_MODE_SLEEP || raw == POWER_MODE_WAKEUP,
        ensures
            status == STATUS_OK ==> r == Result::<PowerMode, Error>::Ok(power_mode_of(raw)),
            status != STATUS_OK ==> r == Result::<PowerMode, Error>::Err(error_of(status)),
    {
        if status == STATUS_OK {
            Ok(PowerMode::from_u8(raw))
        } else {
            Err(Error::from_u8(status))
        }
    }
}

impl RangingMode {
    /// Decode the raw ranging-mode byte the driver handed back.
    pub fn from_u8(v: u8) -> (r: Self)
        requires
            v == RANGING_MODE_CONTINUOUS || v == RANGING_MODE_AUTONOMOUS,
        ensures
            r == ranging_mode_of(v),
    {
        if v == RANGING_MODE_CONTINUOUS {
            RangingMode::Continuous
        } else {
            RangingMode::Autonomous
        }
    }

    /// The raw byte this ranging mode is handed to the driver as.
    pub fn to_u8(self) -> (r: u8)
        ensures
            ranging_mode_of(r) == self,
            r == RANGING_MODE_CONTINUOUS || r == RANGING_MODE_AUTONOMOUS,
    {
        match self {
            RangingMode::Continuous => RANGING_MODE_CONTINUOUS,
            RangingMode::Autonomous => RANGING_MODE_AUTONOMOUS,
        }
    }

    /// Interpret a get-ranging-mode outcome: the status byte the driver
    /// returned together with the raw mode byte it wrote.
    pub fn decode(status: u8, raw: u8) -> (r: Result<Self, Error>)
        requires
            status == STATUS_OK ==> raw == RANGING_MODE_CONTINUOUS || raw == RANGING_MODE_AUTONOMOUS,
        ensures
            status == STATUS_OK ==> r == Result::<RangingMode, Error>::Ok(ranging_mode_of(raw)),
            status != STATUS_OK ==> r == Result::<RangingMode, Error>::Err(error_of(status)),
    {
        if status == STATUS_OK {
            Ok(RangingMode::from_u8(raw))
        } else {
            Err(Error::from_u8(status))
        }
    }
}

impl Resolution {
    /// Decode the raw resolution byte the driver handed back.
    pub fn from_u8(v: u8) -> (r: Self)
        requires
            v == RESOLUTION_4X4 || v == RESOLUTION_8X8,
        ensures
            r == resolution_of(v),
    {
        if v == RESOLUTION_4X4 {
            Resolution::Res4x4
        } else {
            Resolution::Res8x8
        }
    }

    /// The raw byte this resolution is handed to the driver as.
    pub fn to_u8(self) -> (r: u8)
        ensures
            resolution_of(r) == self,
            r == RESOLUTION_4X4 || r == RESOLUTION_8X8,
    {
        match self {
            Resolution::Res4x4 => RESOLUTION_4X4,
            Resolution::Res8x8 => RESOLUTION_8X8,
        }
    }

    /// Interpret a get-resolution outcome: the status byte the driver
    /// returned together with the raw resolution byte it wrote.
    pub fn decode(status: u8, raw: u8) -> (r: Result<Self, Error>)
        requires
            status == STATUS_OK ==> raw == RESOLUTION_4X4 || raw == RESOLUTION_8X8,
        ensures
            status == STATUS_OK ==> r == Result::<Resolution, Error>::Ok(resolution_of(raw)),
            status != STATUS_OK ==> r == Result::<Resolution, Error>::Err(error_of(status)),
    {
        if status == STATUS_OK {
            Ok(Resolution::from_u8(raw))
        } else {
            Err(Error::from_u8(status))
        }
    }
}

} // verus!
