use plane_system::camera::client::{
    decode_save_media, ensure_step, event_action, files_listable, list_parent_handle,
    location_info_data, operating_mode_setting, setting_precheck, shooting_file_pending,
    storage_listable, watch_change, CameraClientMode, CameraErrorTracker, CameraEventAction,
    CameraLocationFields, EnsureStep, InvalidSaveMedia, SettingPrecheck,
};
use plane_system::camera::data::{PtpData, PtpPropInfo};
use plane_system::camera::interface::CameraPropertyCode;
use plane_system::camera::state::{CameraErrorMode, CameraOperatingMode, CameraSaveMode};

fn prop(code: u16, current: PtpData, is_enable: u8, get_set: u8) -> PtpPropInfo {
    PtpPropInfo {
        property_code: code,
        data_type: 4,
        get_set,
        is_enable,
        factory_default: PtpData::UINT16(0),
        current,
    }
}

fn is_same(a: &Option<PtpData>, b: &Option<PtpData>) -> bool {
    match (a, b) {
        (Some(a), Some(b)) => a.same_as(b),
        (None, None) => true,
        _ => false,
    }
}

#[test]
fn errors_are_reported_once() {
    let mut t = CameraErrorTracker::new();
    let temp = PtpData::UINT16(0x0020);
    assert_eq!(t.check_error(Some(&temp)), Err(CameraErrorMode::Temperature));
    assert_eq!(t.check_error(Some(&temp)), Ok(()));
    assert_eq!(t.check_error(Some(&temp)), Ok(()));
    let battery = PtpData::UINT16(0x0010);
    assert_eq!(t.check_error(Some(&battery)), Err(CameraErrorMode::Battery));
    assert_eq!(t.check_error(Some(&PtpData::UINT16(0))), Ok(()));
    assert_eq!(t.error, None);
    assert_eq!(t.check_error(Some(&battery)), Err(CameraErrorMode::Battery));
}

#[test]
fn unknown_or_missing_cautions_clear_the_record() {
    let mut t = CameraErrorTracker::new();
    assert_eq!(t.check_error(Some(&PtpData::UINT16(0x8000))), Err(CameraErrorMode::Fatal));
    assert_eq!(t.check_error(Some(&PtpData::UINT16(0x0003))), Ok(()));
    assert_eq!(t.error, None);
    assert_eq!(t.check_error(Some(&PtpData::UINT8(1))), Ok(()));
    assert_eq!(t.check_error(None), Ok(()));
    assert_eq!(t.check_error(Some(&PtpData::UINT16(0x8000))), Err(CameraErrorMode::Fatal));
}

#[test]
fn ensure_steps() {
    let target = PtpData::UINT8(2);
    assert_eq!(ensure_step(Some(&PtpData::UINT8(2)), None, &target), EnsureStep::Done);
    assert_eq!(ensure_step(Some(&PtpData::UINT8(1)), None, &target), EnsureStep::SetAgain);
    assert_eq!(ensure_step(None, Some(&PtpData::UINT16(0)), &target), EnsureStep::SetAgain);
    assert_eq!(
        ensure_step(Some(&PtpData::UINT8(2)), Some(&PtpData::UINT16(1)), &target),
        EnsureStep::Abort
    );
    // the same number in another type is not the wanted value
    assert_eq!(ensure_step(Some(&PtpData::UINT16(2)), None, &target), EnsureStep::SetAgain);
}

#[test]
fn setting_prechecks() {
    let value = PtpData::UINT16(3);
    assert_eq!(setting_precheck(None, &value), SettingPrecheck::Proceed);
    let same = prop(0xD6CC, PtpData::UINT16(3), 0, 0);
    assert_eq!(setting_precheck(Some(&same), &value), SettingPrecheck::AlreadySet);
    let locked = prop(0xD6CC, PtpData::UINT16(1), 1, 0);
    assert_eq!(setting_precheck(Some(&locked), &value), SettingPrecheck::Unsupported);
    let disabled = prop(0xD6CC, PtpData::UINT16(1), 0, 1);
    assert_eq!(setting_precheck(Some(&disabled), &value), SettingPrecheck::Unsupported);
    let open = prop(0xD6CC, PtpData::UINT16(1), 1, 1);
    assert_eq!(setting_precheck(Some(&open), &value), SettingPrecheck::Proceed);
}

#[test]
fn watched_values() {
    let a = PtpData::UINT16(1);
    let b = PtpData::UINT16(2);
    assert!(is_same(&watch_change(Some(&a), Some(&b)), &Some(PtpData::UINT16(2))));
    assert!(is_same(&watch_change(Some(&a), Some(&a)), &None));
    assert!(is_same(&watch_change(None, Some(&a)), &Some(PtpData::UINT16(1))));
    assert!(is_same(&watch_change(Some(&a), None), &None));
}

#[test]
fn shooting_file_info_top_bit() {
    assert!(shooting_file_pending(Some(&PtpData::UINT16(0x8001))));
    assert!(shooting_file_pending(Some(&PtpData::UINT16(0x8000))));
    assert!(!shooting_file_pending(Some(&PtpData::UINT16(0x7FFF))));
    assert!(!shooting_file_pending(Some(&PtpData::UINT16(0))));
    // a value that has not been read counts as 0
    assert!(!shooting_file_pending(None));
}

#[test]
fn save_media_and_events() {
    assert_eq!(decode_save_media(&PtpData::UINT16(1)), Ok(CameraSaveMode::HostDevice));
    assert_eq!(decode_save_media(&PtpData::UINT16(2)), Ok(CameraSaveMode::MemoryCard1));
    assert_eq!(decode_save_media(&PtpData::UINT16(3)), Err(InvalidSaveMedia::UnknownMode));
    assert_eq!(decode_save_media(&PtpData::UINT8(1)), Err(InvalidSaveMedia::WrongDataType));
    let host = PtpData::UINT16(1);
    let card = PtpData::UINT16(2);
    assert_eq!(
        event_action(CameraClientMode::ContinuousCapture, 0xC204, Some(&host)),
        Ok(CameraEventAction::Download)
    );
    assert_eq!(
        event_action(CameraClientMode::ContinuousCapture, 0xC204, Some(&card)),
        Ok(CameraEventAction::WarnSavedOnCamera)
    );
    assert_eq!(
        event_action(CameraClientMode::ContinuousCapture, 0xC204, None),
        Err(InvalidSaveMedia::Unknown)
    );
    assert_eq!(
        event_action(CameraClientMode::ContinuousCapture, 0xC203, Some(&host)),
        Ok(CameraEventAction::Ignore)
    );
    assert_eq!(
        event_action(CameraClientMode::Idle, 0xC204, Some(&host)),
        Ok(CameraEventAction::Ignore)
    );
}

#[test]
fn storage_checks() {
    assert!(!storage_listable(&[0x00010000]));
    assert!(storage_listable(&[0x00010001]));
    assert!(storage_listable(&[]));
    assert!(files_listable(&[0x00020001, 0x00010001]));
    assert!(!files_listable(&[0x00010000]));
    assert_eq!(list_parent_handle(Some(0x1234)), 0x1234);
    assert_eq!(list_parent_handle(None), 0xFFFFFFFF);
}

#[test]
fn operating_mode_setting_value() {
    let (code, value) = operating_mode_setting(CameraOperatingMode::ContentsTransfer);
    assert_eq!(code, CameraPropertyCode::OperatingMode);
    assert!(value.same_as(&PtpData::UINT8(4)));
}

#[test]
fn location_info_words() {
    let f = CameraLocationFields {
        latitude_negative: false,
        lat_degrees: 42,
        lat_minutes: 26,
        lat_seconds_num: 1234567,
        longitude_negative: true,
        lon_degrees: 76,
        lon_minutes: 29,
        lon_seconds_num: 7654321,
        altitude_negative: false,
        altitude_mm: 120500,
        year: 2023,
        month: 5,
        day: 17,
        hour: 13,
        minute: 4,
        second: 59,
    };
    match location_info_data(&f) {
        PtpData::AUINT32(words) => {
            assert_eq!(words.len(), 46);
            assert_eq!(&words[..16], &[1, 1, 1, 42, 26, 1234567, 100000, 0, 76, 29, 7654321, 100000, 1, 0, 120500, 1000]);
            assert_eq!(words[29], 1);
            assert_eq!(&words[40..], &[2023, 5, 17, 13, 4, 59]);
            assert!(words[16..29].iter().all(|&w| w == 0));
            assert!(words[30..40].iter().all(|&w| w == 0));
        }
        _ => panic!("expected an array of 32-bit words"),
    }
}
