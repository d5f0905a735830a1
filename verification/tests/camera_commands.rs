use plane_system::camera::client::CameraClientMode;
use plane_system::camera::command::{
    answer_get, capture_controls, cc_interval_exact, cc_interval_rounded,
    continuous_capture_control, debug_property_value, get_request_of_set, get_request_property,
    mode_after_continuous_capture, plan_set, record_control, required_mode, str_is,
    CameraCommandContinuousCaptureRequest, CameraCommandFileRequest, CameraCommandGetRequest,
    CameraCommandRecordRequest, CameraCommandRequest, CameraCommandResponse,
    CameraCommandSetRequest, CameraCommandStorageRequest, GetError, IntervalError, ModeNameError,
};
use plane_system::camera::data::{PtpData, PtpPropInfo};
use plane_system::camera::interface::{CameraControlCode, CameraPropertyCode};
use plane_system::camera::state::{
    CameraExposureMode, CameraFocusMode, CameraOperatingMode, CameraSaveMode, CameraZoomMode,
};
use plane_system::command::{power_control, CameraPowerCommand};

fn info(current: PtpData) -> PtpPropInfo {
    PtpPropInfo {
        property_code: 0,
        data_type: 0,
        get_set: 1,
        is_enable: 1,
        factory_default: PtpData::UNDEF,
        current,
    }
}

#[test]
fn mode_names() {
    assert_eq!("m".parse::<CameraExposureMode>(), Ok(CameraExposureMode::ManualExposure));
    assert_eq!(
        CameraExposureMode::parse_name("apeture-priority"),
        Ok(CameraExposureMode::AperturePriority)
    );
    assert_eq!(CameraExposureMode::parse_name("x"), Err(ModeNameError::ExposureMode));
    assert_eq!(CameraSaveMode::parse_name("host"), Ok(CameraSaveMode::HostDevice));
    assert_eq!(CameraSaveMode::parse_name("camera"), Ok(CameraSaveMode::MemoryCard1));
    assert_eq!(CameraZoomMode::parse_name("od"), Ok(CameraZoomMode::OpticalDigital));
    assert_eq!(CameraZoomMode::parse_name("digital"), Err(ModeNameError::ZoomMode));
    assert_eq!(CameraOperatingMode::parse_name("video"), Ok(CameraOperatingMode::MovieRec));
    assert_eq!(CameraOperatingMode::parse_name("transfer"), Ok(CameraOperatingMode::ContentsTransfer));
    assert_eq!(CameraOperatingMode::parse_name("Still"), Err(ModeNameError::OperatingMode));
    assert_eq!(CameraFocusMode::parse_name("afc"), Ok(CameraFocusMode::AutoFocusContinuous));
    assert_eq!(CameraFocusMode::parse_name("m"), Ok(CameraFocusMode::Manual));
    assert_eq!(CameraFocusMode::parse_name(""), Err(ModeNameError::FocusMode));
    assert!(str_is("abc", "abc"));
    assert!(!str_is("abc", "ab"));
}

#[test]
fn get_requests_read_their_property() {
    assert_eq!(get_request_property(&CameraCommandGetRequest::SaveMode), CameraPropertyCode::SaveMedia);
    assert_eq!(
        get_request_property(&CameraCommandGetRequest::ZoomLevel),
        CameraPropertyCode::ZoomAbsolutePosition
    );
    assert_eq!(get_request_property(&CameraCommandGetRequest::CcInterval), CameraPropertyCode::IntervalTime);
}

#[test]
fn get_answers() {
    let r = answer_get(&CameraCommandGetRequest::ExposureMode, Some(&info(PtpData::UINT16(0x8000))));
    assert!(matches!(r, Ok(CameraCommandResponse::ExposureMode(CameraExposureMode::IntelligentAuto))));
    let r = answer_get(&CameraCommandGetRequest::ExposureMode, Some(&info(PtpData::UINT16(9))));
    assert!(matches!(r, Err(GetError::InvalidValue)));
    let r = answer_get(&CameraCommandGetRequest::OperatingMode, Some(&info(PtpData::UINT16(2))));
    assert!(matches!(r, Err(GetError::WrongDataType)));
    let r = answer_get(&CameraCommandGetRequest::OperatingMode, Some(&info(PtpData::UINT8(2))));
    assert!(matches!(r, Ok(CameraCommandResponse::OperatingMode(CameraOperatingMode::StillRec))));
    let r = answer_get(&CameraCommandGetRequest::ZoomLevel, Some(&info(PtpData::UINT16(0x0123))));
    assert!(matches!(r, Ok(CameraCommandResponse::ZoomLevel(0x23))));
    let r = answer_get(&CameraCommandGetRequest::CcInterval, Some(&info(PtpData::UINT16(25))));
    assert!(matches!(r, Ok(CameraCommandResponse::CcIntervalTenths(25))));
    let r = answer_get(&CameraCommandGetRequest::FocusMode, None);
    assert!(matches!(r, Err(GetError::NotRetrieved)));
}

#[test]
fn set_plans() {
    let (code, value) = plan_set(&CameraCommandSetRequest::ExposureMode {
        mode: CameraExposureMode::ShutterPriority,
    })
    .unwrap();
    assert_eq!(code, CameraPropertyCode::ExposureMode);
    assert!(value.same_as(&PtpData::UINT16(4)));
    let (code, value) =
        plan_set(&CameraCommandSetRequest::OperatingMode { mode: CameraOperatingMode::Standby }).unwrap();
    assert_eq!(code, CameraPropertyCode::OperatingMode);
    assert!(value.same_as(&PtpData::UINT8(1)));
    let (code, value) = plan_set(&CameraCommandSetRequest::ZoomLevel { level: 300 }).unwrap();
    assert_eq!(code, CameraPropertyCode::ZoomAbsolutePosition);
    assert!(value.same_as(&PtpData::UINT16(300)));
    let (code, value) = plan_set(&CameraCommandSetRequest::CcInterval { interval_tenths: 27 }).unwrap();
    assert_eq!(code, CameraPropertyCode::IntervalTime);
    assert!(value.same_as(&PtpData::UINT16(25)));
    assert!(matches!(
        plan_set(&CameraCommandSetRequest::CcInterval { interval_tenths: 9 }),
        Err(IntervalError::TooShort)
    ));
}

#[test]
fn set_then_get_reads_back() {
    let (_, value) =
        plan_set(&CameraCommandSetRequest::FocusMode { mode: CameraFocusMode::AutoFocusStill }).unwrap();
    let r = answer_get(&CameraCommandGetRequest::FocusMode, Some(&info(value)));
    assert!(matches!(r, Ok(CameraCommandResponse::FocusMode(CameraFocusMode::AutoFocusStill))));
}

#[test]
fn set_requests_read_back_through_their_get_request() {
    let set = CameraCommandSetRequest::ZoomLevel { level: 40 };
    let get = get_request_of_set(&set);
    assert!(matches!(get, CameraCommandGetRequest::ZoomLevel));
    let (code, value) = plan_set(&set).unwrap();
    assert_eq!(code, get_request_property(&get));
    let r = answer_get(&get, Some(&info(value)));
    assert!(matches!(r, Ok(CameraCommandResponse::ZoomLevel(40))));

    let set = CameraCommandSetRequest::CcInterval { interval_tenths: 27 };
    let get = get_request_of_set(&set);
    assert!(matches!(get, CameraCommandGetRequest::CcInterval));
    let (code, value) = plan_set(&set).unwrap();
    assert_eq!(code, CameraPropertyCode::IntervalTime);
    let r = answer_get(&get, Some(&info(value)));
    assert!(matches!(r, Ok(CameraCommandResponse::CcIntervalTenths(25))));
}

#[test]
fn continuous_capture_intervals() {
    assert_eq!(cc_interval_rounded(10), Ok(10));
    assert_eq!(cc_interval_rounded(300), Ok(300));
    assert_eq!(cc_interval_rounded(299), Ok(295));
    assert_eq!(cc_interval_rounded(9), Err(IntervalError::TooShort));
    assert_eq!(cc_interval_rounded(301), Err(IntervalError::TooLong));
    assert_eq!(cc_interval_exact(15), Ok(15));
    assert_eq!(cc_interval_exact(16), Err(IntervalError::NotHalfSeconds));
    assert_eq!(cc_interval_exact(0), Err(IntervalError::TooShort));
}

#[test]
fn control_plans() {
    let seq = capture_controls();
    let codes: Vec<CameraControlCode> = seq.iter().map(|c| c.0).collect();
    assert_eq!(
        codes,
        vec![
            CameraControlCode::S1Button,
            CameraControlCode::S2Button,
            CameraControlCode::S2Button,
            CameraControlCode::S1Button
        ]
    );
    assert!(seq[0].1.same_as(&PtpData::UINT16(2)));
    assert!(seq[3].1.same_as(&PtpData::UINT16(1)));
    let (code, v) = continuous_capture_control(CameraCommandContinuousCaptureRequest::Start);
    assert_eq!(code, CameraControlCode::IntervalStillRecording);
    assert!(v.same_as(&PtpData::UINT16(2)));
    let (code, v) = record_control(CameraCommandRecordRequest::Stop);
    assert_eq!(code, CameraControlCode::MovieRecording);
    assert!(v.same_as(&PtpData::UINT16(1)));
    let (code, v) = power_control(CameraPowerCommand::Down);
    assert_eq!(code, CameraControlCode::PowerOff);
    assert!(v.same_as(&PtpData::UINT16(2)));
    assert_eq!(
        mode_after_continuous_capture(CameraCommandContinuousCaptureRequest::Start),
        CameraClientMode::ContinuousCapture
    );
    assert_eq!(
        mode_after_continuous_capture(CameraCommandContinuousCaptureRequest::Stop),
        CameraClientMode::Idle
    );
}

#[test]
fn required_modes() {
    assert_eq!(required_mode(&CameraCommandRequest::Capture), Some(CameraOperatingMode::StillRec));
    assert_eq!(
        required_mode(&CameraCommandRequest::Storage(CameraCommandStorageRequest::List)),
        Some(CameraOperatingMode::ContentsTransfer)
    );
    assert_eq!(
        required_mode(&CameraCommandRequest::File(CameraCommandFileRequest::Get { handle: 1 })),
        Some(CameraOperatingMode::ContentsTransfer)
    );
    assert_eq!(required_mode(&CameraCommandRequest::Reconnect), None);
}

#[test]
fn debug_values() {
    assert!(debug_property_value(1, -1).unwrap().same_as(&PtpData::INT8(-1)));
    assert!(debug_property_value(2, 0x1FF).unwrap().same_as(&PtpData::UINT8(0xFF)));
    assert!(debug_property_value(4, 70000).unwrap().same_as(&PtpData::UINT16(4464)));
    assert!(debug_property_value(8, -1).unwrap().same_as(&PtpData::UINT64(u64::MAX)));
    assert!(debug_property_value(9, 1).is_none());
}
