use vstd::prelude::*;

use super::data::{PtpData, PtpPropInfo, PtpValue};
use super::interface::CameraPropertyCode;
use super::state::{CameraErrorMode, CameraOperatingMode, CameraSaveMode};

verus! {

/// The object handle under which the camera offers the image it just took.
pub const CAPTURED_IMAGE_HANDLE: u32 = 0xFFFFC001;

/// The vendor event code that the camera sends when an image is ready.
pub const CAPTURE_COMPLETE_EVENT: u16 = 0xC204;

/// The view of an optional borrowed value.
pub open spec fn opt_value(o: Option<&PtpData>) -> Option<PtpValue> {
    match o {
        Some(d) => Some(d@),
        None => None,
    }
}

/// The camera error that a reading of the `Caution` property names: a known
/// nonzero 16-bit code. No reading, a zero, a value of another type or an
/// unknown code name none.
pub open spec fn caution_error(caution: Option<PtpValue>) -> Option<CameraErrorMode> {
    match caution {
        Some(PtpValue::UInt16(v)) => if v != 0 {
            CameraErrorMode::from_code(v)
        } else {
            None
        },
        _ => None,
    }
}

/// One check of the camera's caution: the error then on record, and what the
/// check reports. An error is reported once, when it first appears, and then
/// the check is `Ok` until the error changes; when no error is shown the
/// record is cleared, so that the same error is reported again if it returns.
pub open spec fn check_error_step(
    recorded: Option<CameraErrorMode>,
    caution: Option<PtpValue>,
) -> (Option<CameraErrorMode>, Result<(), CameraErrorMode>) {
    match caution_error(caution) {
        Some(m) => if recorded == Some(m) {
            (Some(m), Ok(()))
        } else {
            (Some(m), Err(m))
        },
        None => (None, Ok(())),
    }
}

/// Remembers which camera error was last reported.
#[derive(Debug)]
pub struct CameraErrorTracker {
    pub error: Option<CameraErrorMode>,
}

impl CameraErrorTracker {
    /// A tracker that has reported nothing.
    pub fn new() -> (r: CameraErrorTracker)
        ensures
            r.error is None,
    {
        CameraErrorTracker { error: None }
    }

    /// Checks whether the camera registers a new error, given the current
    /// reading of its `Caution` property. Returns a given error only once,
    /// and then returns `Ok` until the error changes.
    pub fn check_error(&mut self, caution: Option<&PtpData>) -> (r: Result<(), CameraErrorMode>)
        ensures
            (final(self).error, r) == check_error_step(old(self).error, opt_value(caution)),
    {
        if let Some(PtpData::UINT16(v)) = caution {
            if *v != 0 {
                if let Some(m) = CameraErrorMode::from_u16(*v) {
                    let already_reported = match self.error {
                        Some(e) => e == m,
                        None => false,
                    };
                    self.error = Some(m);
                    if already_reported {
                        return Ok(());
                    } else {
                        return Err(m);
                    }
                }
            }
        }
        self.error = None;
        Ok(())
    }
}

/// A check that reports an error is followed, on the same reading, by a check
/// that reports nothing: an error is reported once.
pub proof fn lemma_error_reported_once(recorded: Option<CameraErrorMode>, caution: Option<PtpValue>)
    ensures
        check_error_step(check_error_step(recorded, caution).0, caution).1 is Ok,
        check_error_step(check_error_step(recorded, caution).0, caution).0 == check_error_step(
            recorded,
            caution,
        ).0,
{
}

/// A check reports an error exactly when the reading names an error other than
/// the one on record.
pub proof fn lemma_error_reported_when_new(
    recorded: Option<CameraErrorMode>,
    caution: Option<PtpValue>,
)
    ensures
        check_error_step(recorded, caution).1 is Err <==> (caution_error(caution) is Some
            && caution_error(caution) != recorded),
        check_error_step(recorded, caution).1 matches Err(m) ==> caution_error(caution) == Some(m),
{
}

/// What one round of bringing a property to a wanted value does next.
#[derive(Clone, Copy, Debug, PartialEq, Eq, Structural)]
pub enum EnsureStep {
    /// The camera's caution says that setting failed: give up.
    Abort,
    /// The property has the wanted value.
    Done,
    /// Set the property and read the properties again.
    SetAgain,
}

/// The next step of bringing a property to `target`, given its value and the
/// camera's caution as last read.
pub open spec fn spec_ensure_step(
    actual: Option<PtpValue>,
    caution: Option<PtpValue>,
    target: PtpValue,
) -> EnsureStep {
    if caution == Some(PtpValue::UInt16(0x0001)) {
        EnsureStep::Abort
    } else if actual == Some(target) {
        EnsureStep::Done
    } else {
        EnsureStep::SetAgain
    }
}

/// Bringing a property to a value gives up exactly when the camera's caution
/// reads "setting failed" (0x0001); any other caution, or none, leaves the
/// step to the property: done when it holds the target, otherwise set again.
pub proof fn lemma_ensure_step_aborts_only_on_setting_failed(
    actual: Option<PtpValue>,
    caution: Option<PtpValue>,
    target: PtpValue,
)
    ensures
        (spec_ensure_step(actual, caution, target) == EnsureStep::Abort) <==> caution == Some(
            PtpValue::UInt16(0x0001u16),
        ),
        caution != Some(PtpValue::UInt16(0x0001u16)) ==> ((spec_ensure_step(actual, caution, target)
            == EnsureStep::Done) <==> actual == Some(target)),
        caution != Some(PtpValue::UInt16(0x0001u16)) && actual != Some(target) ==> spec_ensure_step(
            actual,
            caution,
            target,
        ) == EnsureStep::SetAgain,
{
}

/// Decides the next step of bringing a property to `target`: abort when the
/// caution flag reads "setting failed", stop when the value is reached, and
/// otherwise set it again.
pub fn ensure_step(actual: Option<&PtpData>, caution: Option<&PtpData>, target: &PtpData) -> (r:
    EnsureStep)
    ensures
        r == spec_ensure_step(opt_value(actual), opt_value(caution), target@),
{
    if let Some(PtpData::UINT16(c)) = caution {
        if *c == 0x0001 {
            return EnsureStep::Abort;
        }
    }
    match actual {
        Some(a) => if a.same_as(target) {
            EnsureStep::Done
        } else {
            EnsureStep::SetAgain
        },
        None => EnsureStep::SetAgain,
    }
}

/// What to do before trying to change a setting.
#[derive(Clone, Copy, Debug, PartialEq, Eq, Structural)]
pub enum SettingPrecheck {
    /// The setting already has the wanted value.
    AlreadySet,
    /// The camera does not allow this property to be changed.
    Unsupported,
    /// Go on and set it.
    Proceed,
}

/// The precheck of a setting change, given what is known of the property.
pub open spec fn spec_setting_precheck(
    current: Option<(PtpValue, u8, u8)>,
    value: PtpValue,
) -> SettingPrecheck {
    match current {
        Some((cur, is_enable, get_set)) => if cur == value {
            SettingPrecheck::AlreadySet
        } else if is_enable != 1 || get_set != 1 {
            SettingPrecheck::Unsupported
        } else {
            SettingPrecheck::Proceed
        },
        None => SettingPrecheck::Proceed,
    }
}

/// The current value and the enable and get/set flags of a property.
pub open spec fn prop_flags(p: Option<&PtpPropInfo>) -> Option<(PtpValue, u8, u8)> {
    match p {
        Some(p) => Some((p.current@, p.is_enable, p.get_set)),
        None => None,
    }
}

/// Decides whether a setting change is needed and allowed: nothing to do when
/// the property already has the value, refused when the camera marks the
/// property as not enabled or not settable.
pub fn setting_precheck(current: Option<&PtpPropInfo>, value: &PtpData) -> (r: SettingPrecheck)
    ensures
        r == spec_setting_precheck(prop_flags(current), value@),
{
    match current {
        Some(p) => if p.current.same_as(value) {
            SettingPrecheck::AlreadySet
        } else if p.is_enable != 1 || p.get_set != 1 {
            SettingPrecheck::Unsupported
        } else {
            SettingPrecheck::Proceed
        },
        None => SettingPrecheck::Proceed,
    }
}

/// The new value of a watched property, if it has changed: a value that is
/// now known and differs from the initial one, or that is known for the
/// first time.
pub open spec fn spec_watch_change(initial: Option<PtpValue>, actual: Option<PtpValue>) -> Option<
    PtpValue,
> {
    match actual {
        Some(a) => match initial {
            Some(i) => if a != i {
                Some(a)
            } else {
                None
            },
            None => Some(a),
        },
        None => None,
    }
}

/// Compares a watched property with its initial value and returns the new
/// value once it has changed.
pub fn watch_change(initial: Option<&PtpData>, actual: Option<&PtpData>) -> (r: Option<PtpData>)
    ensures
        opt_value_owned(r) == spec_watch_change(opt_value(initial), opt_value(actual)),
{
    match actual {
        Some(a) => match initial {
            Some(i) => if !a.same_as(i) {
                Some(a.copy())
            } else {
                None
            },
            None => Some(a.copy()),
        },
        None => None,
    }
}

/// The view of an optional owned value.
pub open spec fn opt_value_owned(o: Option<PtpData>) -> Option<PtpValue> {
    match o {
        Some(d) => Some(d@),
        None => None,
    }
}

/// The `ShootingFileInfo` property, where it has been read, holds an
/// unsigned 16-bit value.
pub open spec fn is_shooting_file_info(info: Option<PtpValue>) -> bool {
    info is None || info matches Some(PtpValue::UInt16(_))
}

/// Whether the camera still holds an image to be downloaded: the top bit of
/// the `ShootingFileInfo` value, which counts as 0 while it has not been
/// read.
pub fn shooting_file_pending(info: Option<&PtpData>) -> (r: bool)
    requires
        is_shooting_file_info(opt_value(info)),
    ensures
        r == match opt_value(info) {
            Some(PtpValue::UInt16(v)) => v >= 0x8000,
            _ => false,
        },
{
    match info {
        Some(PtpData::UINT16(v)) => *v >= 0x8000,
        _ => false,
    }
}

/// The `SaveMedia` property does not hold a known save mode.
#[derive(Clone, Copy, Debug, PartialEq, Eq, Structural)]
pub enum InvalidSaveMedia {
    /// The property has not been read from the camera.
    Unknown,
    /// The property's value is not an unsigned 16-bit value.
    WrongDataType,
    /// The value names no save mode.
    UnknownMode,
}

/// The save mode that a reading of `SaveMedia` names.
pub open spec fn spec_save_media(v: PtpValue) -> Result<CameraSaveMode, InvalidSaveMedia> {
    match v {
        PtpValue::UInt16(m) => match CameraSaveMode::from_code(m) {
            Some(mode) => Ok(mode),
            None => Err(InvalidSaveMedia::UnknownMode),
        },
        _ => Err(InvalidSaveMedia::WrongDataType),
    }
}

/// Decodes the `SaveMedia` property: whether a captured image goes to the
/// host, to be downloaded, or stays on the memory card.
pub fn decode_save_media(value: &PtpData) -> (r: Result<CameraSaveMode, InvalidSaveMedia>)
    ensures
        r == spec_save_media(value@),
{
    match value {
        PtpData::UINT16(m) => match CameraSaveMode::from_u16(*m) {
            Some(mode) => Ok(mode),
            None => Err(InvalidSaveMedia::UnknownMode),
        },
        _ => Err(InvalidSaveMedia::WrongDataType),
    }
}

/// The integer fields of a GPS fix, as the camera's `LocationInfo` property
/// takes them: degrees, minutes and seconds (the seconds as a numerator over
/// 100000) of latitude and longitude, the relative altitude in millimetres,
/// and the date and time of the fix.
#[derive(Clone, Copy, Debug, PartialEq, Eq, Structural)]
pub struct CameraLocationFields {
    pub latitude_negative: bool,
    pub lat_degrees: u32,
    pub lat_minutes: u32,
    pub lat_seconds_num: u32,
    pub longitude_negative: bool,
    pub lon_degrees: u32,
    pub lon_minutes: u32,
    pub lon_seconds_num: u32,
    pub altitude_negative: bool,
    pub altitude_mm: u32,
    pub year: u32,
    pub month: u32,
    pub day: u32,
    pub hour: u32,
    pub minute: u32,
    pub second: u32,
}

/// The denominator of the seconds of latitude and longitude.
pub const LOCATION_SECONDS_DENOMINATOR: u32 = 100000;

/// The words of the `LocationInfo` value: a GPS-sourced 3D fix, the latitude
/// and longitude (a reference flag that is 0 for a negative coordinate, then
/// degrees, minutes and seconds as a fraction), the relative altitude (a flag
/// that is 1 below the ground, then millimetres over 1000), geoid altitude,
/// VDoP, HDoP and PDoP absent, WGS84, speed and bearings absent, then the date
/// and time.
pub open spec fn location_words(f: CameraLocationFields) -> Seq<u32> {
    seq![
        1u32, 1u32,
        if f.latitude_negative { 0u32 } else { 1u32 }, f.lat_degrees, f.lat_minutes,
        f.lat_seconds_num, LOCATION_SECONDS_DENOMINATOR,
        if f.longitude_negative { 0u32 } else { 1u32 }, f.lon_degrees, f.lon_minutes,
        f.lon_seconds_num, LOCATION_SECONDS_DENOMINATOR,
        1u32, if f.altitude_negative { 1u32 } else { 0u32 }, f.altitude_mm, 1000u32,
        0u32, 0u32, 0u32, 0u32,
        0u32, 0u32, 0u32,
        0u32, 0u32, 0u32,
        0u32, 0u32, 0u32,
        1u32,
        0u32, 0u32, 0u32, 0u32,
        0u32, 0u32, 0u32,
        0u32, 0u32, 0u32,
        f.year, f.month, f.day, f.hour, f.minute, f.second,
    ]
}

/// Builds the `LocationInfo` value that tells the camera where and when an
/// image is taken.
pub fn location_info_data(f: &CameraLocationFields) -> (r: PtpData)
    ensures
        r@ == PtpValue::AUInt32(location_words(*f)),
{
    let v: Vec<u32> = vec![
        1u32, 1u32,
        if f.latitude_negative { 0u32 } else { 1u32 }, f.lat_degrees, f.lat_minutes,
        f.lat_seconds_num, LOCATION_SECONDS_DENOMINATOR,
        if f.longitude_negative { 0u32 } else { 1u32 }, f.lon_degrees, f.lon_minutes,
        f.lon_seconds_num, LOCATION_SECONDS_DENOMINATOR,
        1u32, if f.altitude_negative { 1u32 } else { 0u32 }, f.altitude_mm, 1000u32,
        0u32, 0u32, 0u32, 0u32,
        0u32, 0u32, 0u32,
        0u32, 0u32, 0u32,
        0u32, 0u32, 0u32,
        1u32,
        0u32, 0u32, 0u32, 0u32,
        0u32, 0u32, 0u32,
        0u32, 0u32, 0u32,
        f.year, f.month, f.day, f.hour, f.minute, f.second,
    ];
    proof {
        assert(v@ =~= location_words(*f));
    }
    PtpData::AUINT32(v)
}

/// The property and value that put the camera into an operating mode.
pub fn operating_mode_setting(mode: CameraOperatingMode) -> (r: (CameraPropertyCode, PtpData))
    ensures
        r.0 == CameraPropertyCode::OperatingMode,
        r.1@ == PtpValue::UInt8(mode.code()),
{
    (CameraPropertyCode::OperatingMode, PtpData::UINT8(mode.to_u8()))
}

/// The storage id that the camera reports while no logical storage is
/// available.
pub const NO_LOGICAL_STORAGE_ID: u32 = 0x00010000;

/// The storage id of the camera's memory card.
pub const MEMORY_CARD_STORAGE_ID: u32 = 0x00010001;

/// The object handle that stands for the root folder of a storage.
pub const ROOT_OBJECT_HANDLE: u32 = 0xFFFFFFFF;

/// Whether `ids` holds `id`.
pub fn contains_id(ids: &[u32], id: u32) -> (r: bool)
    ensures
        r == ids@.contains(id),
{
    let mut i: usize = 0;
    while i < ids.len()
        invariant
            i <= ids@.len(),
            forall|j: int| 0 <= j < i ==> ids@[j] != id,
        decreases ids@.len() - i,
    {
        if ids[i] == id {
            proof {
                assert(ids@[i as int] == id);
            }
            return true;
        }
        i = i + 1;
    }
    false
}

/// The storage volumes can be listed once the camera no longer reports the
/// placeholder id of missing logical storage.
pub fn storage_listable(ids: &[u32]) -> (r: bool)
    ensures
        r == !ids@.contains(NO_LOGICAL_STORAGE_ID),
{
    !contains_id(ids, NO_LOGICAL_STORAGE_ID)
}

/// The files can be listed once the camera reports its memory card.
pub fn files_listable(ids: &[u32]) -> (r: bool)
    ensures
        r == ids@.contains(MEMORY_CARD_STORAGE_ID),
{
    contains_id(ids, MEMORY_CARD_STORAGE_ID)
}

/// The folder whose contents a file listing shows: the given one, or the root.
pub fn list_parent_handle(parent: Option<u32>) -> (r: u32)
    ensures
        r == match parent {
            Some(p) => p,
            None => ROOT_OBJECT_HANDLE,
        },
{
    match parent {
        Some(p) => p,
        None => ROOT_OBJECT_HANDLE,
    }
}

/// Whether the camera client downloads the images of continuous capture.
#[derive(Clone, Copy, Debug, PartialEq, Eq, Structural)]
pub enum CameraClientMode {
    Idle,
    ContinuousCapture,
}

/// What the camera client does with an event from the camera.
#[derive(Clone, Copy, Debug, PartialEq, Eq, Structural)]
pub enum CameraEventAction {
    /// Nothing.
    Ignore,
    /// Download the image just taken, from the captured-image handle.
    Download,
    /// The image stays on the memory card, which continuous capture does not
    /// support; warn.
    WarnSavedOnCamera,
}

/// What to do with an event: during continuous capture, a capture-complete
/// event leads to a download when images are saved to the host, to a warning
/// when they stay on the camera, and to an error when the save media is not
/// known or not readable; every other event, and every event outside
/// continuous capture, is ignored.
pub open spec fn spec_event_action(
    mode: CameraClientMode,
    event_code: u16,
    save_media: Option<PtpValue>,
) -> Result<CameraEventAction, InvalidSaveMedia> {
    if mode == CameraClientMode::ContinuousCapture && event_code == CAPTURE_COMPLETE_EVENT {
        match save_media {
            None => Err(InvalidSaveMedia::Unknown),
            Some(v) => match spec_save_media(v) {
                Ok(CameraSaveMode::HostDevice) => Ok(CameraEventAction::Download),
                Ok(CameraSaveMode::MemoryCard1) => Ok(CameraEventAction::WarnSavedOnCamera),
                Err(e) => Err(e),
            },
        }
    } else {
        Ok(CameraEventAction::Ignore)
    }
}

/// Decides what to do with an event from the camera, given the client's mode
/// and the current value of the `SaveMedia` property.
pub fn event_action(mode: CameraClientMode, event_code: u16, save_media: Option<&PtpData>) -> (r:
    Result<CameraEventAction, InvalidSaveMedia>)
    ensures
        r == spec_event_action(mode, event_code, opt_value(save_media)),
{
    if mode == CameraClientMode::ContinuousCapture && event_code == CAPTURE_COMPLETE_EVENT {
        match save_media {
            None => Err(InvalidSaveMedia::Unknown),
            Some(v) => match decode_save_media(v) {
                Ok(CameraSaveMode::HostDevice) => Ok(CameraEventAction::Download),
                Ok(CameraSaveMode::MemoryCard1) => Ok(CameraEventAction::WarnSavedOnCamera),
                Err(e) => Err(e),
            },
        }
    } else {
        Ok(CameraEventAction::Ignore)
    }
}

/// A `Caution` reading names the error whose bit it shows: the code of each
/// error names that error, a named error has the code that was read, and no
/// reading, a zero or a value of another type names none.
pub proof fn lemma_caution_names_its_error(m: CameraErrorMode, v: u16, other: PtpValue)
    ensures
        caution_error(Some(PtpValue::UInt16(m.code()))) == Some(m),
        caution_error(Some(PtpValue::UInt16(v))) matches Some(n) ==> n.code() == v && v != 0,
        caution_error(None) is None,
        caution_error(Some(PtpValue::UInt16(0u16))) is None,
        !(other is UInt16) ==> caution_error(Some(other)) is None,
{
    crate::camera::state::lemma_error_mode_code_table();
    crate::camera::state::lemma_error_mode_code_round_trip(m, v);
}

/// A setting is already made exactly when the camera reports the wanted
/// value; otherwise it may be changed only when the camera reports the
/// property as enabled (1) and settable (1); a property that has not been
/// reported is tried.
pub proof fn lemma_setting_precheck_law(current: Option<(PtpValue, u8, u8)>, value: PtpValue)
    ensures
        (spec_setting_precheck(current, value) == SettingPrecheck::AlreadySet) <==> (current matches Some(
            (cur, _, _),
        ) && cur == value),
        (spec_setting_precheck(current, value) == SettingPrecheck::Unsupported) <==> (current matches Some(
            (cur, e, g),
        ) && cur != value && (e != 1 || g != 1)),
        current is None ==> spec_setting_precheck(current, value) == SettingPrecheck::Proceed,
{
}

/// During continuous capture, a capture-complete event (0xC204) leads to a
/// download when the save medium reads as the host (1) and to a warning when
/// it reads as the memory card (2); any other event, and any event outside
/// continuous capture, is ignored.
pub proof fn lemma_event_action_law(mode: CameraClientMode, event_code: u16, save_media: Option<PtpValue>)
    ensures
        mode == CameraClientMode::ContinuousCapture && event_code == 0xC204u16 && save_media == Some(
            PtpValue::UInt16(1u16),
        ) ==> spec_event_action(mode, event_code, save_media) == Ok::<
            CameraEventAction,
            InvalidSaveMedia,
        >(CameraEventAction::Download),
        mode == CameraClientMode::ContinuousCapture && event_code == 0xC204u16 && save_media == Some(
            PtpValue::UInt16(2u16),
        ) ==> spec_event_action(mode, event_code, save_media) == Ok::<
            CameraEventAction,
            InvalidSaveMedia,
        >(CameraEventAction::WarnSavedOnCamera),
        mode == CameraClientMode::ContinuousCapture && event_code == 0xC204u16 && save_media is None
            ==> spec_event_action(mode, event_code, save_media) is Err,
        (mode == CameraClientMode::Idle || event_code != 0xC204u16) ==> spec_event_action(
            mode,
            event_code,
            save_media,
        ) == Ok::<CameraEventAction, InvalidSaveMedia>(CameraEventAction::Ignore),
{
    crate::camera::state::lemma_save_mode_code_table();
}

/// The camera's location record is 46 words: it comes from a GPS (1) with a
/// 3D fix (1); latitude and longitude each take a hemisphere flag (0 when the
/// coordinate is negative, as the camera client sets it), degrees, minutes
/// and seconds over 100000; the relative altitude is flagged as present, with
/// its sign and its value in millimetres over 1000; the datum is WGS84 (1);
/// the date and time close the record.
pub proof fn lemma_location_record_layout(f: CameraLocationFields)
    ensures
        ({
            let w = location_words(f);
            &&& w.len() == 46
            &&& w[0] == 1u32 && w[1] == 1u32
            &&& w[2] == (if f.latitude_negative { 0u32 } else { 1u32 })
            &&& w[3] == f.lat_degrees && w[4] == f.lat_minutes && w[5] == f.lat_seconds_num
            &&& w[6] == 100000u32
            &&& w[7] == (if f.longitude_negative { 0u32 } else { 1u32 })
            &&& w[8] == f.lon_degrees && w[9] == f.lon_minutes && w[10] == f.lon_seconds_num
            &&& w[11] == 100000u32
            &&& w[12] == 1u32
            &&& w[13] == (if f.altitude_negative { 1u32 } else { 0u32 })
            &&& w[14] == f.altitude_mm && w[15] == 1000u32
            &&& w[29] == 1u32
            &&& w[40] == f.year && w[41] == f.month && w[42] == f.day
            &&& w[43] == f.hour && w[44] == f.minute && w[45] == f.second
        }),
{
}

} // verus!
