use vl53l7cx::status::{
    MCU_ERROR, STATUS_CORRUPTED_FRAME, STATUS_ERROR, STATUS_INVALID_PARAM, STATUS_OK,
    STATUS_TIMEOUT_ERROR, STATUS_XTALK_FAILED,
};
use vl53l7cx::{wrap_result, Error};

#[test]
fn known_codes_map_to_their_variant() {
    assert_eq!(Error::from_u8(STATUS_TIMEOUT_ERROR), Error::StatusTimeout);
    assert_eq!(Error::from_u8(STATUS_CORRUPTED_FRAME), Error::StatusCorruptedFrame);
    assert_eq!(Error::from_u8(STATUS_XTALK_FAILED), Error::StatusXtalkFailed);
    assert_eq!(Error::from_u8(MCU_ERROR), Error::McuError);
    assert_eq!(Error::from_u8(STATUS_INVALID_PARAM), Error::StatusInvalidParam);
    assert_eq!(Error::from_u8(STATUS_ERROR), Error::StatusError);
}

#[test]
fn codes_outside_the_set_map_to_unknown() {
    assert_eq!(Error::from_u8(3), Error::Unknown);
    assert_eq!(Error::from_u8(5), Error::Unknown);
    assert_eq!(Error::from_u8(128), Error::Unknown);
    assert_eq!(Error::from_u8(254), Error::Unknown);
}

#[test]
fn raw_code_round_trips_for_every_defined_variant() {
    for code in [
        STATUS_TIMEOUT_ERROR,
        STATUS_CORRUPTED_FRAME,
        STATUS_XTALK_FAILED,
        MCU_ERROR,
        STATUS_INVALID_PARAM,
        STATUS_ERROR,
    ] {
        assert_eq!(Error::from_u8(code).raw_code(), code);
    }
    for e in [
        Error::StatusTimeout,
        Error::StatusCorruptedFrame,
        Error::StatusXtalkFailed,
        Error::McuError,
        Error::StatusInvalidParam,
        Error::StatusError,
    ] {
        assert_eq!(Error::from_u8(e.raw_code()), e);
    }
}

#[test]
fn unknown_reports_as_the_generic_error_code() {
    assert_eq!(Error::Unknown.raw_code(), STATUS_ERROR);
}

#[test]
fn wrap_result_passes_the_value_through_on_ok() {
    assert_eq!(wrap_result(STATUS_OK, 7_u8), Ok(7));
    assert_eq!(wrap_result(STATUS_OK, ()), Ok(()));
}

#[test]
fn wrap_result_maps_each_error_code() {
    assert_eq!(wrap_result(STATUS_TIMEOUT_ERROR, ()), Err(Error::StatusTimeout));
    assert_eq!(wrap_result(STATUS_CORRUPTED_FRAME, ()), Err(Error::StatusCorruptedFrame));
    assert_eq!(wrap_result(STATUS_XTALK_FAILED, ()), Err(Error::StatusXtalkFailed));
    assert_eq!(wrap_result(MCU_ERROR, ()), Err(Error::McuError));
    assert_eq!(wrap_result(STATUS_INVALID_PARAM, ()), Err(Error::StatusInvalidParam));
    assert_eq!(wrap_result(STATUS_ERROR, ()), Err(Error::StatusError));
    assert_eq!(wrap_result(9, ()), Err(Error::Unknown));
}

#[test]
fn wrap_flag_decodes_the_flag_byte_on_ok() {
    assert_eq!(vl53l7cx::status::wrap_flag(STATUS_OK, 1), Ok(true));
    assert_eq!(vl53l7cx::status::wrap_flag(STATUS_OK, 0), Ok(false));
    assert_eq!(vl53l7cx::status::wrap_flag(STATUS_OK, 2), Ok(false));
    assert_eq!(
        vl53l7cx::status::wrap_flag(STATUS_TIMEOUT_ERROR, 1),
        Err(Error::StatusTimeout)
    );
}
