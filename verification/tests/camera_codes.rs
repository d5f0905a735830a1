use plane_system::camera::interface::{
    parse_ext_device_info, ExtDeviceInfoError, SonyCommandCode, SonyDeviceControlCode,
    SonyDevicePropertyCode,
};
use plane_system::camera::state::{CameraErrorMode, CameraExposureMode, CameraOperatingMode, CameraSaveMode};
use plane_system::util::parse_hex_u32;

#[test]
fn parse_hex_u32_accepts_hex_digits() {
    assert_eq!(parse_hex_u32("ff"), Ok(255));
    assert_eq!(parse_hex_u32("FFFFC001"), Ok(0xFFFFC001));
    assert_eq!(parse_hex_u32("+10"), Ok(16));
    assert_eq!(parse_hex_u32("0"), Ok(0));
}

#[test]
fn parse_hex_u32_reads_back_formatted_handles() {
    for n in [0u32, 1, 0xF, 0x10, 0xABCD, 0xFFFFC001, 0x00010001, u32::MAX] {
        assert_eq!(parse_hex_u32(&format!("{:x}", n)), Ok(n));
        assert_eq!(parse_hex_u32(&format!("{:X}", n)), Ok(n));
        assert_eq!(parse_hex_u32(&format!("{:08x}", n)), Ok(n));
        assert_eq!(parse_hex_u32(&format!("{:012X}", n)), Ok(n));
    }
}

#[test]
fn parse_hex_u32_rejects_bad_input() {
    assert!(parse_hex_u32("").is_err());
    assert!(parse_hex_u32("+").is_err());
    assert!(parse_hex_u32("0x10").is_err());
    assert!(parse_hex_u32(" 10").is_err());
    assert!(parse_hex_u32("100000000").is_err());
    assert!(parse_hex_u32("-1").is_err());
    assert!(parse_hex_u32("g").is_err());
}

#[test]
fn exposure_mode_codes() {
    assert_eq!(CameraExposureMode::ManualExposure.to_u16(), 0x0001);
    assert_eq!(CameraExposureMode::MovieIntelligentAuto.to_u16(), 0x8054);
    assert_eq!(CameraExposureMode::from_u16(0x8001), Some(CameraExposureMode::SuperiorAuto));
    assert_eq!(CameraExposureMode::from_u16(0x0005), None);
}

#[test]
fn error_and_save_mode_codes() {
    assert_eq!(CameraErrorMode::from_u16(0x8000), Some(CameraErrorMode::Fatal));
    assert_eq!(CameraErrorMode::from_u16(0x0001), Some(CameraErrorMode::SettingFailure));
    assert_eq!(CameraErrorMode::from_u16(0x0003), None);
    assert_eq!(CameraSaveMode::from_u16(2), Some(CameraSaveMode::MemoryCard1));
    assert_eq!(CameraOperatingMode::StillRec.to_u8(), 2);
}

#[test]
fn sony_codes() {
    assert_eq!(SonyCommandCode::SdioConnect.to_u16(), 0x96FE);
    assert_eq!(SonyDevicePropertyCode::from_u16(0xD6CF), Some(SonyDevicePropertyCode::SaveMedia));
    assert_eq!(SonyDeviceControlCode::from_u16(0xD61D), Some(SonyDeviceControlCode::S1Button));
    assert_eq!(SonyDeviceControlCode::from_u16(0x1234), None);
}

#[test]
fn ext_device_info_is_parsed() {
    // version 0x00C8; three property codes, one of them unknown and one twice;
    // one control code.
    let data: Vec<u8> = vec![
        0xC8, 0x00, // version
        4, 0, 0, 0, // four property codes
        0xCF, 0xD6, // SaveMedia
        0x34, 0x12, // unknown
        0xE2, 0xD6, // OperatingMode
        0xCF, 0xD6, // SaveMedia again
        1, 0, 0, 0, // one control code
        0x1D, 0xD6, // S1Button
        0xFF, // a trailing byte is not read
    ];
    let info = parse_ext_device_info(&data).unwrap();
    assert_eq!(info.version, 0x00C8);
    assert_eq!(
        info.supported_properties,
        vec![SonyDevicePropertyCode::SaveMedia, SonyDevicePropertyCode::OperatingMode]
    );
    assert_eq!(info.supported_controls, vec![SonyDeviceControlCode::S1Button]);
}

#[test]
fn ext_device_info_truncated() {
    assert_eq!(parse_ext_device_info(&[0xC8]).unwrap_err(), ExtDeviceInfoError::Truncated);
    let data: Vec<u8> = vec![0xC8, 0x00, 2, 0, 0, 0, 0xCF, 0xD6];
    assert_eq!(parse_ext_device_info(&data).unwrap_err(), ExtDeviceInfoError::Truncated);
    let data: Vec<u8> = vec![0xC8, 0x00, 0, 0, 0, 0, 1, 0, 0];
    assert_eq!(parse_ext_device_info(&data).unwrap_err(), ExtDeviceInfoError::Truncated);
}
