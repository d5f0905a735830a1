use plane_system::camera::data::{PtpData, PtpPropInfo};
use plane_system::camera::interface::SonyDevicePropertyCode;
use plane_system::camera::properties::CameraProperties;

fn report(code: u16, value: u16) -> PtpPropInfo {
    PtpPropInfo {
        property_code: code,
        data_type: 4,
        get_set: 1,
        is_enable: 1,
        factory_default: PtpData::UINT16(0),
        current: PtpData::UINT16(value),
    }
}

fn current(p: &CameraProperties, code: SonyDevicePropertyCode) -> Option<u16> {
    match p.get_value(code) {
        Some(PtpData::UINT16(v)) => Some(v),
        Some(_) => panic!("unexpected data type"),
        None => None,
    }
}

#[test]
fn reports_of_known_properties_are_kept() {
    let props = CameraProperties::from_reports(&vec![
        report(0xD6CF, 1),
        report(0x1234, 7),
        report(0xD6CC, 3),
        report(0xD6CF, 2),
    ]);
    assert_eq!(props.len(), 2);
    assert_eq!(current(&props, SonyDevicePropertyCode::SaveMedia), Some(2));
    assert_eq!(current(&props, SonyDevicePropertyCode::ExposureMode), Some(3));
    assert_eq!(current(&props, SonyDevicePropertyCode::Caution), None);
    let info = props.get(SonyDevicePropertyCode::ExposureMode).unwrap();
    assert_eq!(info.property_code, 0xD6CC);
    assert!(props.get(SonyDevicePropertyCode::Zoom).is_none());
}

#[test]
fn merging_replaces_and_keeps() {
    let mut props = CameraProperties::new();
    props.merge(&vec![report(0xD6CF, 1), report(0xD6CC, 3)]);
    props.merge(&vec![report(0xD6CF, 2)]);
    assert_eq!(current(&props, SonyDevicePropertyCode::SaveMedia), Some(2));
    assert_eq!(current(&props, SonyDevicePropertyCode::ExposureMode), Some(3));
    assert!(props.already_set(SonyDevicePropertyCode::SaveMedia, &PtpData::UINT16(2)));
    assert!(!props.already_set(SonyDevicePropertyCode::SaveMedia, &PtpData::UINT16(1)));
    assert!(!props.already_set(SonyDevicePropertyCode::SaveMedia, &PtpData::UINT8(2)));
    assert!(!props.already_set(SonyDevicePropertyCode::Zoom, &PtpData::UINT16(2)));
}

#[test]
fn changes_are_tracked() {
    let mut props = CameraProperties::new();
    let changes = props.merge_tracking_changes(&vec![report(0xD6CF, 1), report(0xD6CC, 3)]);
    assert_eq!(changes.len(), 2);
    let c = &changes[&0xD6CF];
    assert!(c.new.same_as(&PtpData::UINT16(1)));
    assert!(c.old.is_none());
    let changes = props.merge_tracking_changes(&vec![
        report(0xD6CF, 1),
        report(0xD6CC, 4),
        report(0x0001, 9),
    ]);
    assert_eq!(changes.len(), 1);
    let c = &changes[&0xD6CC];
    assert!(c.new.same_as(&PtpData::UINT16(4)));
    assert!(c.old.as_ref().unwrap().same_as(&PtpData::UINT16(3)));
    let changes = props.merge_tracking_changes(&vec![report(0xD6CF, 1)]);
    assert!(changes.is_empty());
}

#[test]
fn a_later_unchanged_report_keeps_the_earlier_change() {
    let mut props = CameraProperties::new();
    props.merge(&vec![report(0xD6CF, 1)]);
    let changes = props.merge_tracking_changes(&vec![report(0xD6CF, 2), report(0xD6CF, 2)]);
    let c = &changes[&0xD6CF];
    assert!(c.new.same_as(&PtpData::UINT16(2)));
    assert!(c.old.as_ref().unwrap().same_as(&PtpData::UINT16(1)));
}

#[test]
fn values_compare_by_type_and_content() {
    assert!(PtpData::STR("a".to_string()).same_as(&PtpData::STR("a".to_string())));
    assert!(!PtpData::STR("a".to_string()).same_as(&PtpData::STR("b".to_string())));
    assert!(PtpData::AUINT32(vec![1, 2]).same_as(&PtpData::AUINT32(vec![1, 2])));
    assert!(!PtpData::AUINT32(vec![1, 2]).same_as(&PtpData::AUINT32(vec![1])));
    assert!(!PtpData::UINT8(1).same_as(&PtpData::INT8(1)));
    assert!(PtpData::AUINT8(vec![3]).copy().same_as(&PtpData::AUINT8(vec![3])));
}
