use std::collections::HashMap;

use vstd::prelude::*;

use super::client::CameraClientMode;
use super::data::{PtpData, PtpPropInfo, PtpValue};
use super::interface::{CameraControlCode, CameraPropertyCode};
use super::listing::{PtpObjectInfo, PtpStorageInfo};
use super::state::{
    CameraExposureMode, CameraFocusMode, CameraOperatingMode, CameraSaveMode, CameraZoomMode,
};

verus! {

/// Whether two strings are equal.
pub fn str_is(s: &str, lit: &str) -> (r: bool)
    ensures
        r == (s@ == lit@),
{
    let a = s.to_owned();
    let b = lit.to_owned();
    a == b
}

/// A command-line name denotes no value of the named kind.
#[derive(Clone, Copy, Debug, PartialEq, Eq, Structural)]
pub enum ModeNameError {
    ExposureMode,
    SaveMode,
    ZoomMode,
    OperatingMode,
    FocusMode,
}

impl CameraExposureMode {
    /// The value that a command-line name denotes.
    pub open spec fn from_name(s: Seq<char>) -> Option<CameraExposureMode> {
        if s == "m"@ || s == "manual"@ || s == "manual-exposure"@ {
            Some(CameraExposureMode::ManualExposure)
        } else if s == "p"@ || s == "program-auto"@ {
            Some(CameraExposureMode::ProgramAuto)
        } else if s == "a"@ || s == "aperture"@ || s == "apeture-priority"@ {
            Some(CameraExposureMode::AperturePriority)
        } else if s == "s"@ || s == "shutter"@ || s == "shutter-priority"@ {
            Some(CameraExposureMode::ShutterPriority)
        } else if s == "i"@ || s == "intelligent-auto"@ {
            Some(CameraExposureMode::IntelligentAuto)
        } else if s == "superior-auto"@ {
            Some(CameraExposureMode::SuperiorAuto)
        } else if s == "movie-program-auto"@ {
            Some(CameraExposureMode::MovieProgramAuto)
        } else if s == "movie-aperture-priority"@ {
            Some(CameraExposureMode::MovieAperturePriority)
        } else if s == "movie-shutter-priority"@ {
            Some(CameraExposureMode::MovieShutterPriority)
        } else if s == "movie-manual-exposure"@ {
            Some(CameraExposureMode::MovieManualExposure)
        } else if s == "movie-intelligent-auto"@ {
            Some(CameraExposureMode::MovieIntelligentAuto)
        } else {
            None
        }
    }

    /// Parses a command-line name of the value.
    pub fn parse_name(s: &str) -> (r: Result<CameraExposureMode, ModeNameError>)
        ensures
            r is Ok <==> CameraExposureMode::from_name(s@) is Some,
            r matches Ok(m) ==> CameraExposureMode::from_name(s@) == Some(m),
            r matches Err(e) ==> e == ModeNameError::ExposureMode,
    {
        if str_is(s, "m") || str_is(s, "manual") || str_is(s, "manual-exposure") {
            Ok(CameraExposureMode::ManualExposure)
        } else if str_is(s, "p") || str_is(s, "program-auto") {
            Ok(CameraExposureMode::ProgramAuto)
        } else if str_is(s, "a") || str_is(s, "aperture") || str_is(s, "apeture-priority") {
            Ok(CameraExposureMode::AperturePriority)
        } else if str_is(s, "s") || str_is(s, "shutter") || str_is(s, "shutter-priority") {
            Ok(CameraExposureMode::ShutterPriority)
        } else if str_is(s, "i") || str_is(s, "intelligent-auto") {
            Ok(CameraExposureMode::IntelligentAuto)
        } else if str_is(s, "superior-auto") {
            Ok(CameraExposureMode::SuperiorAuto)
        } else if str_is(s, "movie-program-auto") {
            Ok(CameraExposureMode::MovieProgramAuto)
        } else if str_is(s, "movie-aperture-priority") {
            Ok(CameraExposureMode::MovieAperturePriority)
        } else if str_is(s, "movie-shutter-priority") {
            Ok(CameraExposureMode::MovieShutterPriority)
        } else if str_is(s, "movie-manual-exposure") {
            Ok(CameraExposureMode::MovieManualExposure)
        } else if str_is(s, "movie-intelligent-auto") {
            Ok(CameraExposureMode::MovieIntelligentAuto)
        } else {
            Err(ModeNameError::ExposureMode)
        }
    }
}

impl std::str::FromStr for CameraExposureMode {
    type Err = ModeNameError;

    fn from_str(s: &str) -> (r: Result<Self, Self::Err>)
        ensures
            r is Ok <==> CameraExposureMode::from_name(s@) is Some,
            r matches Ok(m) ==> CameraExposureMode::from_name(s@) == Some(m),
            r matches Err(e) ==> e == ModeNameError::ExposureMode,
    {
        CameraExposureMode::parse_name(s)
    }
}

impl CameraSaveMode {
    /// The value that a command-line name denotes.
    pub open spec fn from_name(s: Seq<char>) -> Option<CameraSaveMode> {
        if s == "host"@ || s == "host-device"@ {
            Some(CameraSaveMode::HostDevice)
        } else if s == "cam"@ || s == "camera"@ {
            Some(CameraSaveMode::MemoryCard1)
        } else {
            None
        }
    }

    /// Parses a command-line name of the value.
    pub fn parse_name(s: &str) -> (r: Result<CameraSaveMode, ModeNameError>)
        ensures
            r is Ok <==> CameraSaveMode::from_name(s@) is Some,
            r matches Ok(m) ==> CameraSaveMode::from_name(s@) == Some(m),
            r matches Err(e) ==> e == ModeNameError::SaveMode,
    {
        if str_is(s, "host") || str_is(s, "host-device") {
            Ok(CameraSaveMode::HostDevice)
        } else if str_is(s, "cam") || str_is(s, "camera") {
            Ok(CameraSaveMode::MemoryCard1)
        } else {
            Err(ModeNameError::SaveMode)
        }
    }
}

impl std::str::FromStr for CameraSaveMode {
    type Err = ModeNameError;

    fn from_str(s: &str) -> (r: Result<Self, Self::Err>)
        ensures
            r is Ok <==> CameraSaveMode::from_name(s@) is Some,
            r matches Ok(m) ==> CameraSaveMode::from_name(s@) == Some(m),
            r matches Err(e) ==> e == ModeNameError::SaveMode,
    {
        CameraSaveMode::parse_name(s)
    }
}

impl CameraZoomMode {
    /// The value that a command-line name denotes.
    pub open spec fn from_name(s: Seq<char>) -> Option<CameraZoomMode> {
        if s == "o"@ || s == "optical"@ {
            Some(CameraZoomMode::Optical)
        } else if s == "od"@ || s == "optical-digital"@ {
            Some(CameraZoomMode::OpticalDigital)
        } else {
            None
        }
    }

    /// Parses a command-line name of the value.
    pub fn parse_name(s: &str) -> (r: Result<CameraZoomMode, ModeNameError>)
        ensures
            r is Ok <==> CameraZoomMode::from_name(s@) is Some,
            r matches Ok(m) ==> CameraZoomMode::from_name(s@) == Some(m),
            r matches Err(e) ==> e == ModeNameError::ZoomMode,
    {
        if str_is(s, "o") || str_is(s, "optical") {
            Ok(CameraZoomMode::Optical)
        } else if str_is(s, "od") || str_is(s, "optical-digital") {
            Ok(CameraZoomMode::OpticalDigital)
        } else {
            Err(ModeNameError::ZoomMode)
        }
    }
}

impl std::str::FromStr for CameraZoomMode {
    type Err = ModeNameError;

    fn from_str(s: &str) -> (r: Result<Self, Self::Err>)
        ensures
            r is Ok <==> CameraZoomMode::from_name(s@) is Some,
            r matches Ok(m) ==> CameraZoomMode::from_name(s@) == Some(m),
            r matches Err(e) ==> e == ModeNameError::ZoomMode,
    {
        CameraZoomMode::parse_name(s)
    }
}

impl CameraOperatingMode {
    /// The value that a command-line name denotes.
    pub open spec fn from_name(s: Seq<char>) -> Option<CameraOperatingMode> {
        if s == "standby"@ {
            Some(CameraOperatingMode::Standby)
        } else if s == "still"@ || s == "image"@ {
            Some(CameraOperatingMode::StillRec)
        } else if s == "movie"@ || s == "video"@ {
            Some(CameraOperatingMode::MovieRec)
        } else if s == "transfer"@ {
            Some(CameraOperatingMode::ContentsTransfer)
        } else {
            None
        }
    }

    /// Parses a command-line name of the value.
    pub fn parse_name(s: &str) -> (r: Result<CameraOperatingMode, ModeNameError>)
        ensures
            r is Ok <==> CameraOperatingMode::from_name(s@) is Some,
            r matches Ok(m) ==> CameraOperatingMode::from_name(s@) == Some(m),
            r matches Err(e) ==> e == ModeNameError::OperatingMode,
    {
        if str_is(s, "standby") {
            Ok(CameraOperatingMode::Standby)
        } else if str_is(s, "still") || str_is(s, "image") {
            Ok(CameraOperatingMode::StillRec)
        } else if str_is(s, "movie") || str_is(s, "video") {
            Ok(CameraOperatingMode::MovieRec)
        } else if str_is(s, "transfer") {
            Ok(CameraOperatingMode::ContentsTransfer)
        } else {
            Err(ModeNameError::OperatingMode)
        }
    }
}

impl std::str::FromStr for CameraOperatingMode {
    type Err = ModeNameError;

    fn from_str(s: &str) -> (r: Result<Self, Self::Err>)
        ensures
            r is Ok <==> CameraOperatingMode::from_name(s@) is Some,
            r matches Ok(m) ==> CameraOperatingMode::from_name(s@) == Some(m),
            r matches Err(e) ==> e == ModeNameError::OperatingMode,
    {
        CameraOperatingMode::parse_name(s)
    }
}

impl CameraFocusMode {
    /// The value that a command-line name denotes.
    pub open spec fn from_name(s: Seq<char>) -> Option<CameraFocusMode> {
        if s == "manual"@ || s == "m"@ {
            Some(CameraFocusMode::Manual)
        } else if s == "afc"@ {
            Some(CameraFocusMode::AutoFocusContinuous)
        } else if s == "afs"@ {
            Some(CameraFocusMode::AutoFocusStill)
        } else {
            None
        }
    }

    /// Parses a command-line name of the value.
    pub fn parse_name(s: &str) -> (r: Result<CameraFocusMode, ModeNameError>)
        ensures
            r is Ok <==> CameraFocusMode::from_name(s@) is Some,
            r matches Ok(m) ==> CameraFocusMode::from_name(s@) == Some(m),
            r matches Err(e) ==> e == ModeNameError::FocusMode,
    {
        if str_is(s, "manual") || str_is(s, "m") {
            Ok(CameraFocusMode::Manual)
        } else if str_is(s, "afc") {
            Ok(CameraFocusMode::AutoFocusContinuous)
        } else if str_is(s, "afs") {
            Ok(CameraFocusMode::AutoFocusStill)
        } else {
            Err(ModeNameError::FocusMode)
        }
    }
}

impl std::str::FromStr for CameraFocusMode {
    type Err = ModeNameError;

    fn from_str(s: &str) -> (r: Result<Self, Self::Err>)
        ensures
            r is Ok <==> CameraFocusMode::from_name(s@) is Some,
            r matches Ok(m) ==> CameraFocusMode::from_name(s@) == Some(m),
            r matches Err(e) ==> e == ModeNameError::FocusMode,
    {
        CameraFocusMode::parse_name(s)
    }
}
/// A request to the main camera.
#[derive(Debug)]
pub enum CameraCommandRequest {
    /// View information about the storage media inside of the camera.
    Storage(CameraCommandStorageRequest),
    /// View information about the files stored on the camera; download files.
    File(CameraCommandFileRequest),
    /// Capture an image.
    Capture,
    /// Disconnect and reconnect to the camera.
    Reconnect,
    /// Get a property of the camera's state.
    Get(CameraCommandGetRequest),
    /// Set a property of the camera's state.
    SetProperty(CameraCommandSetRequest),
    /// Control continuous capture.
    ContinuousCapture(CameraCommandContinuousCaptureRequest),
    /// Record videos.
    Record(CameraCommandRecordRequest),
}

/// A property of the camera to read.
#[derive(Debug)]
pub enum CameraCommandGetRequest {
    ExposureMode,
    OperatingMode,
    SaveMode,
    FocusMode,
    ZoomLevel,
    CcInterval,
    Other(Vec<String>),
}

/// A property of the camera to change. The continuous capture interval is in
/// tenths of a second.
#[allow(inconsistent_fields)]
#[derive(Debug)]
pub enum CameraCommandSetRequest {
    ExposureMode { mode: CameraExposureMode },
    OperatingMode { mode: CameraOperatingMode },
    SaveMode { mode: CameraSaveMode },
    FocusMode { mode: CameraFocusMode },
    ZoomLevel { level: u16 },
    CcInterval { interval_tenths: u16 },
    Other(Vec<String>),
}

/// A request about the camera's storage volumes.
#[derive(Clone, Copy, Debug, PartialEq, Eq, Structural)]
pub enum CameraCommandStorageRequest {
    /// List the storage volumes available on the camera.
    List,
}

/// A request about the files on the camera.
#[derive(Clone, Copy, Debug, PartialEq, Eq, Structural)]
pub enum CameraCommandFileRequest {
    /// List the files available on the camera; if a folder handle is given,
    /// the contents of that folder.
    List { parent: Option<u32> },
    /// Download a file from the camera.
    Get { handle: u32 },
}

/// Starts or stops continuous capture.
#[derive(Clone, Copy, Debug, PartialEq, Eq, Structural)]
pub enum CameraCommandContinuousCaptureRequest {
    Start,
    Stop,
}

/// Starts or stops video recording.
#[derive(Clone, Copy, Debug, PartialEq, Eq, Structural)]
pub enum CameraCommandRecordRequest {
    Start,
    Stop,
}

/// The answer to a camera request. The continuous capture interval is in
/// tenths of a second.
#[derive(Debug)]
pub enum CameraCommandResponse {
    Unit,
    Data { data: Vec<u8> },
    Download { name: String },
    StorageInfo { storages: HashMap<u32, PtpStorageInfo> },
    ObjectInfo { objects: HashMap<u32, PtpObjectInfo> },
    ZoomLevel(u8),
    CcIntervalTenths(u16),
    SaveMode(CameraSaveMode),
    OperatingMode(CameraOperatingMode),
    ExposureMode(CameraExposureMode),
    FocusMode(CameraFocusMode),
}

/// The property that a get request reads.
pub open spec fn spec_get_property(req: CameraCommandGetRequest) -> CameraPropertyCode {
    match req {
        CameraCommandGetRequest::ExposureMode => CameraPropertyCode::ExposureMode,
        CameraCommandGetRequest::OperatingMode => CameraPropertyCode::OperatingMode,
        CameraCommandGetRequest::SaveMode => CameraPropertyCode::SaveMedia,
        CameraCommandGetRequest::FocusMode => CameraPropertyCode::FocusMode,
        CameraCommandGetRequest::ZoomLevel => CameraPropertyCode::ZoomAbsolutePosition,
        _ => CameraPropertyCode::IntervalTime,
    }
}

/// The property that a get request reads. Requests for other properties are
/// not supported.
pub fn get_request_property(req: &CameraCommandGetRequest) -> (r: CameraPropertyCode)
    requires
        !(req is Other),
    ensures
        r == spec_get_property(*req),
{
    match req {
        CameraCommandGetRequest::ExposureMode => CameraPropertyCode::ExposureMode,
        CameraCommandGetRequest::OperatingMode => CameraPropertyCode::OperatingMode,
        CameraCommandGetRequest::SaveMode => CameraPropertyCode::SaveMedia,
        CameraCommandGetRequest::FocusMode => CameraPropertyCode::FocusMode,
        CameraCommandGetRequest::ZoomLevel => CameraPropertyCode::ZoomAbsolutePosition,
        _ => CameraPropertyCode::IntervalTime,
    }
}

/// Why a get request could not be answered.
#[derive(Clone, Copy, Debug, PartialEq, Eq, Structural)]
pub enum GetError {
    /// The property's value has not been retrieved from the camera.
    NotRetrieved,
    /// The property's value has another data type than the property has.
    WrongDataType,
    /// The property's value names no value of its kind.
    InvalidValue,
}

/// The answer to a get request, given the current value of its property, if
/// the camera has reported it. Modes are 16-bit codes except the operating
/// mode, an 8-bit code; the zoom level is the low byte of a 16-bit value; the
/// interval is in tenths of a second.
pub open spec fn spec_answer_get(req: CameraCommandGetRequest, current: Option<PtpValue>) -> Result<
    CameraCommandResponse,
    GetError,
> {
    match current {
        None => Err(GetError::NotRetrieved),
        Some(v) => match req {
            CameraCommandGetRequest::ExposureMode => match v {
                PtpValue::UInt16(m) => match CameraExposureMode::from_code(m) {
                    Some(e) => Ok(CameraCommandResponse::ExposureMode(e)),
                    None => Err(GetError::InvalidValue),
                },
                _ => Err(GetError::WrongDataType),
            },
            CameraCommandGetRequest::OperatingMode => match v {
                PtpValue::UInt8(m) => match CameraOperatingMode::from_code(m) {
                    Some(e) => Ok(CameraCommandResponse::OperatingMode(e)),
                    None => Err(GetError::InvalidValue),
                },
                _ => Err(GetError::WrongDataType),
            },
            CameraCommandGetRequest::SaveMode => match v {
                PtpValue::UInt16(m) => match CameraSaveMode::from_code(m) {
                    Some(e) => Ok(CameraCommandResponse::SaveMode(e)),
                    None => Err(GetError::InvalidValue),
                },
                _ => Err(GetError::WrongDataType),
            },
            CameraCommandGetRequest::FocusMode => match v {
                PtpValue::UInt16(m) => match CameraFocusMode::from_code(m) {
                    Some(e) => Ok(CameraCommandResponse::FocusMode(e)),
                    None => Err(GetError::InvalidValue),
                },
                _ => Err(GetError::WrongDataType),
            },
            CameraCommandGetRequest::ZoomLevel => match v {
                PtpValue::UInt16(l) => Ok(CameraCommandResponse::ZoomLevel(l as u8)),
                _ => Err(GetError::WrongDataType),
            },
            _ => match v {
                PtpValue::UInt16(i) => Ok(CameraCommandResponse::CcIntervalTenths(i)),
                _ => Err(GetError::WrongDataType),
            },
        },
    }
}

/// Answers a get request from the stored information about its property.
pub fn answer_get(req: &CameraCommandGetRequest, info: Option<&PtpPropInfo>) -> (r: Result<
    CameraCommandResponse,
    GetError,
>)
    requires
        !(req is Other),
    ensures
        r == spec_answer_get(
            *req,
            match info {
                Some(p) => Some(p.current@),
                None => None,
            },
        ),
{
    let info = match info {
        Some(p) => p,
        None => return Err(GetError::NotRetrieved),
    };
    match req {
        CameraCommandGetRequest::ExposureMode => match &info.current {
            PtpData::UINT16(m) => match CameraExposureMode::from_u16(*m) {
                Some(e) => Ok(CameraCommandResponse::ExposureMode(e)),
                None => Err(GetError::InvalidValue),
            },
            _ => Err(GetError::WrongDataType),
        },
        CameraCommandGetRequest::OperatingMode => match &info.current {
            PtpData::UINT8(m) => match CameraOperatingMode::from_u8(*m) {
                Some(e) => Ok(CameraCommandResponse::OperatingMode(e)),
                None => Err(GetError::InvalidValue),
            },
            _ => Err(GetError::WrongDataType),
        },
        CameraCommandGetRequest::SaveMode => match &info.current {
            PtpData::UINT16(m) => match CameraSaveMode::from_u16(*m) {
                Some(e) => Ok(CameraCommandResponse::SaveMode(e)),
                None => Err(GetError::InvalidValue),
            },
            _ => Err(GetError::WrongDataType),
        },
        CameraCommandGetRequest::FocusMode => match &info.current {
            PtpData::UINT16(m) => match CameraFocusMode::from_u16(*m) {
                Some(e) => Ok(CameraCommandResponse::FocusMode(e)),
                None => Err(GetError::InvalidValue),
            },
            _ => Err(GetError::WrongDataType),
        },
        CameraCommandGetRequest::ZoomLevel => match &info.current {
            PtpData::UINT16(l) => Ok(CameraCommandResponse::ZoomLevel(*l as u8)),
            _ => Err(GetError::WrongDataType),
        },
        _ => match &info.current {
            PtpData::UINT16(i) => Ok(CameraCommandResponse::CcIntervalTenths(*i)),
            _ => Err(GetError::WrongDataType),
        },
    }
}

/// A continuous capture interval outside what the camera accepts.
#[derive(Clone, Copy, Debug, PartialEq, Eq, Structural)]
pub enum IntervalError {
    /// The minimum interval is 1 second.
    TooShort,
    /// The maximum interval is 30 seconds.
    TooLong,
    /// Valid intervals are in increments of 0.5 seconds.
    NotHalfSeconds,
}

/// The continuous capture interval that a request for `tenths` tenths of a
/// second sets: at least 1 and at most 30 seconds, rounded down to a multiple
/// of half a second.
pub open spec fn spec_cc_interval_rounded(tenths: u16) -> Result<u16, IntervalError> {
    if tenths < 10 {
        Err(IntervalError::TooShort)
    } else if tenths > 300 {
        Err(IntervalError::TooLong)
    } else {
        Ok((tenths - tenths % 5) as u16)
    }
}

/// Checks a continuous capture interval and rounds it down to a multiple of
/// half a second.
pub fn cc_interval_rounded(tenths: u16) -> (r: Result<u16, IntervalError>)
    ensures
        r == spec_cc_interval_rounded(tenths),
{
    if tenths < 10 {
        return Err(IntervalError::TooShort);
    }
    if tenths > 300 {
        return Err(IntervalError::TooLong);
    }
    Ok(tenths - tenths % 5)
}

/// The continuous capture interval that a request for `tenths` tenths of a
/// second sets when the interval must already be a multiple of half a second.
pub open spec fn spec_cc_interval_exact(tenths: u16) -> Result<u16, IntervalError> {
    if tenths < 10 {
        Err(IntervalError::TooShort)
    } else if tenths > 300 {
        Err(IntervalError::TooLong)
    } else if tenths % 5 != 0 {
        Err(IntervalError::NotHalfSeconds)
    } else {
        Ok(tenths)
    }
}

/// Checks a continuous capture interval that must be a multiple of half a
/// second.
pub fn cc_interval_exact(tenths: u16) -> (r: Result<u16, IntervalError>)
    ensures
        r == spec_cc_interval_exact(tenths),
{
    if tenths < 10 {
        return Err(IntervalError::TooShort);
    }
    if tenths > 300 {
        return Err(IntervalError::TooLong);
    }
    if tenths % 5 != 0 {
        return Err(IntervalError::NotHalfSeconds);
    }
    Ok(tenths)
}

/// The property and value that a set request writes.
pub open spec fn spec_plan_set(req: CameraCommandSetRequest) -> Result<
    (CameraPropertyCode, PtpValue),
    IntervalError,
> {
    match req {
        CameraCommandSetRequest::ExposureMode { mode } => Ok(
            (CameraPropertyCode::ExposureMode, PtpValue::UInt16(mode.code())),
        ),
        CameraCommandSetRequest::OperatingMode { mode } => Ok(
            (CameraPropertyCode::OperatingMode, PtpValue::UInt8(mode.code())),
        ),
        CameraCommandSetRequest::SaveMode { mode } => Ok(
            (CameraPropertyCode::SaveMedia, PtpValue::UInt16(mode.code())),
        ),
        CameraCommandSetRequest::FocusMode { mode } => Ok(
            (CameraPropertyCode::FocusMode, PtpValue::UInt16(mode.code())),
        ),
        CameraCommandSetRequest::ZoomLevel { level } => Ok(
            (CameraPropertyCode::ZoomAbsolutePosition, PtpValue::UInt16(level)),
        ),
        CameraCommandSetRequest::CcInterval { interval_tenths } => match spec_cc_interval_rounded(
            interval_tenths,
        ) {
            Ok(t) => Ok((CameraPropertyCode::IntervalTime, PtpValue::UInt16(t))),
            Err(e) => Err(e),
        },
        CameraCommandSetRequest::Other(_) => Err(IntervalError::TooShort),
    }
}

/// The view of a planned property write.
pub open spec fn plan_value(r: Result<(CameraPropertyCode, PtpData), IntervalError>) -> Result<
    (CameraPropertyCode, PtpValue),
    IntervalError,
> {
    match r {
        Ok((c, d)) => Ok((c, d@)),
        Err(e) => Err(e),
    }
}

/// The property and value that a set request writes. Requests for other
/// properties are not supported.
pub fn plan_set(req: &CameraCommandSetRequest) -> (r: Result<
    (CameraPropertyCode, PtpData),
    IntervalError,
>)
    requires
        !(req is Other),
    ensures
        plan_value(r) == spec_plan_set(*req),
{
    match req {
        CameraCommandSetRequest::ExposureMode { mode } => Ok(
            (CameraPropertyCode::ExposureMode, PtpData::UINT16(mode.to_u16())),
        ),
        CameraCommandSetRequest::OperatingMode { mode } => Ok(
            (CameraPropertyCode::OperatingMode, PtpData::UINT8(mode.to_u8())),
        ),
        CameraCommandSetRequest::SaveMode { mode } => Ok(
            (CameraPropertyCode::SaveMedia, PtpData::UINT16(mode.to_u16())),
        ),
        CameraCommandSetRequest::FocusMode { mode } => Ok(
            (CameraPropertyCode::FocusMode, PtpData::UINT16(mode.to_u16())),
        ),
        CameraCommandSetRequest::ZoomLevel { level } => Ok(
            (CameraPropertyCode::ZoomAbsolutePosition, PtpData::UINT16(*level)),
        ),
        CameraCommandSetRequest::CcInterval { interval_tenths } => match cc_interval_rounded(
            *interval_tenths,
        ) {
            Ok(t) => Ok((CameraPropertyCode::IntervalTime, PtpData::UINT16(t))),
            Err(e) => Err(e),
        },
        CameraCommandSetRequest::Other(_) => Err(IntervalError::TooShort),
    }
}

/// The operating mode that a request needs the camera to be in: still
/// recording to capture, contents transfer to look at storage and files.
pub open spec fn spec_required_mode(req: CameraCommandRequest) -> Option<CameraOperatingMode> {
    match req {
        CameraCommandRequest::Capture => Some(CameraOperatingMode::StillRec),
        CameraCommandRequest::Storage(_) => Some(CameraOperatingMode::ContentsTransfer),
        CameraCommandRequest::File(_) => Some(CameraOperatingMode::ContentsTransfer),
        _ => None,
    }
}

/// The operating mode that the camera is brought into before a request runs.
pub fn required_mode(req: &CameraCommandRequest) -> (r: Option<CameraOperatingMode>)
    ensures
        r == spec_required_mode(*req),
{
    match req {
        CameraCommandRequest::Capture => Some(CameraOperatingMode::StillRec),
        CameraCommandRequest::Storage(_) => Some(CameraOperatingMode::ContentsTransfer),
        CameraCommandRequest::File(_) => Some(CameraOperatingMode::ContentsTransfer),
        _ => None,
    }
}

/// The button value that presses a shutter button.
pub const BUTTON_DOWN: u16 = 0x0002;

/// The button value that releases a shutter button.
pub const BUTTON_UP: u16 = 0x0001;

/// The controls that take a picture, in order: press the shutter halfway to
/// fix the focus, press it fully, release it fully, release it halfway.
pub open spec fn capture_sequence() -> Seq<(CameraControlCode, PtpValue)> {
    seq![
        (CameraControlCode::S1Button, PtpValue::UInt16(BUTTON_DOWN)),
        (CameraControlCode::S2Button, PtpValue::UInt16(BUTTON_DOWN)),
        (CameraControlCode::S2Button, PtpValue::UInt16(BUTTON_UP)),
        (CameraControlCode::S1Button, PtpValue::UInt16(BUTTON_UP)),
    ]
}

/// The controls that take a picture.
pub fn capture_controls() -> (r: Vec<(CameraControlCode, PtpData)>)
    ensures
        r@.len() == capture_sequence().len(),
        forall|i: int|
            0 <= i < r@.len() ==> (#[trigger] r@[i]).0 == capture_sequence()[i].0 && r@[i].1@
                == capture_sequence()[i].1,
{
    let mut r: Vec<(CameraControlCode, PtpData)> = Vec::new();
    r.push((CameraControlCode::S1Button, PtpData::UINT16(BUTTON_DOWN)));
    r.push((CameraControlCode::S2Button, PtpData::UINT16(BUTTON_DOWN)));
    r.push((CameraControlCode::S2Button, PtpData::UINT16(BUTTON_UP)));
    r.push((CameraControlCode::S1Button, PtpData::UINT16(BUTTON_UP)));
    r
}

/// The control that starts or stops continuous capture.
pub fn continuous_capture_control(req: CameraCommandContinuousCaptureRequest) -> (r: (
    CameraControlCode,
    PtpData,
))
    ensures
        r.0 == CameraControlCode::IntervalStillRecording,
        r.1@ == PtpValue::UInt16(
            match req {
                CameraCommandContinuousCaptureRequest::Start => BUTTON_DOWN,
                CameraCommandContinuousCaptureRequest::Stop => BUTTON_UP,
            },
        ),
{
    match req {
        CameraCommandContinuousCaptureRequest::Start => (
            CameraControlCode::IntervalStillRecording,
            PtpData::UINT16(BUTTON_DOWN),
        ),
        CameraCommandContinuousCaptureRequest::Stop => (
            CameraControlCode::IntervalStillRecording,
            PtpData::UINT16(BUTTON_UP),
        ),
    }
}

/// The control that starts or stops video recording.
pub fn record_control(req: CameraCommandRecordRequest) -> (r: (CameraControlCode, PtpData))
    ensures
        r.0 == CameraControlCode::MovieRecording,
        r.1@ == PtpValue::UInt16(
            match req {
                CameraCommandRecordRequest::Start => BUTTON_DOWN,
                CameraCommandRecordRequest::Stop => BUTTON_UP,
            },
        ),
{
    match req {
        CameraCommandRecordRequest::Start => (
            CameraControlCode::MovieRecording,
            PtpData::UINT16(BUTTON_DOWN),
        ),
        CameraCommandRecordRequest::Stop => (
            CameraControlCode::MovieRecording,
            PtpData::UINT16(BUTTON_UP),
        ),
    }
}

/// The value of a debug write of `value` to a property of PTP data type
/// `data_type`: the value cast to the type's integer width. Only the integer
/// types 1 to 8 can be written.
pub open spec fn spec_debug_value(data_type: u16, value: i64) -> Option<PtpValue> {
    if data_type == 0x0001 {
        Some(PtpValue::Int8(value as i8))
    } else if data_type == 0x0002 {
        Some(PtpValue::UInt8(value as u8))
    } else if data_type == 0x0003 {
        Some(PtpValue::Int16(value as i16))
    } else if data_type == 0x0004 {
        Some(PtpValue::UInt16(value as u16))
    } else if data_type == 0x0005 {
        Some(PtpValue::Int32(value as i32))
    } else if data_type == 0x0006 {
        Some(PtpValue::UInt32(value as u32))
    } else if data_type == 0x0007 {
        Some(PtpValue::Int64(value))
    } else if data_type == 0x0008 {
        Some(PtpValue::UInt64(value as u64))
    } else {
        None
    }
}

/// Builds the value of a debug write to a property of the given data type.
pub fn debug_property_value(data_type: u16, value: i64) -> (r: Option<PtpData>)
    ensures
        match r {
            Some(d) => spec_debug_value(data_type, value) == Some(d@),
            None => spec_debug_value(data_type, value) is None,
        },
{
    if data_type == 0x0001 {
        Some(PtpData::INT8(value as i8))
    } else if data_type == 0x0002 {
        Some(PtpData::UINT8(value as u8))
    } else if data_type == 0x0003 {
        Some(PtpData::INT16(value as i16))
    } else if data_type == 0x0004 {
        Some(PtpData::UINT16(value as u16))
    } else if data_type == 0x0005 {
        Some(PtpData::INT32(value as i32))
    } else if data_type == 0x0006 {
        Some(PtpData::UINT32(value as u32))
    } else if data_type == 0x0007 {
        Some(PtpData::INT64(value))
    } else if data_type == 0x0008 {
        Some(PtpData::UINT64(value as u64))
    } else {
        None
    }
}

/// The client's mode after a continuous capture request: downloading the
/// images of continuous capture after a start, idle after a stop.
pub fn mode_after_continuous_capture(req: CameraCommandContinuousCaptureRequest) -> (r:
    CameraClientMode)
    ensures
        r == match req {
            CameraCommandContinuousCaptureRequest::Start => CameraClientMode::ContinuousCapture,
            CameraCommandContinuousCaptureRequest::Stop => CameraClientMode::Idle,
        },
{
    match req {
        CameraCommandContinuousCaptureRequest::Start => CameraClientMode::ContinuousCapture,
        CameraCommandContinuousCaptureRequest::Stop => CameraClientMode::Idle,
    }
}

/// The get request that reads the property a set request writes.
pub open spec fn get_of_set(req: CameraCommandSetRequest) -> CameraCommandGetRequest {
    match req {
        CameraCommandSetRequest::ExposureMode { .. } => CameraCommandGetRequest::ExposureMode,
        CameraCommandSetRequest::OperatingMode { .. } => CameraCommandGetRequest::OperatingMode,
        CameraCommandSetRequest::SaveMode { .. } => CameraCommandGetRequest::SaveMode,
        CameraCommandSetRequest::FocusMode { .. } => CameraCommandGetRequest::FocusMode,
        CameraCommandSetRequest::ZoomLevel { .. } => CameraCommandGetRequest::ZoomLevel,
        _ => CameraCommandGetRequest::CcInterval,
    }
}

/// The get request that reads back what a set request writes.
pub fn get_request_of_set(req: &CameraCommandSetRequest) -> (r: CameraCommandGetRequest)
    requires
        !(req is Other),
    ensures
        r == get_of_set(*req),
{
    match req {
        CameraCommandSetRequest::ExposureMode { .. } => CameraCommandGetRequest::ExposureMode,
        CameraCommandSetRequest::OperatingMode { .. } => CameraCommandGetRequest::OperatingMode,
        CameraCommandSetRequest::SaveMode { .. } => CameraCommandGetRequest::SaveMode,
        CameraCommandSetRequest::FocusMode { .. } => CameraCommandGetRequest::FocusMode,
        CameraCommandSetRequest::ZoomLevel { .. } => CameraCommandGetRequest::ZoomLevel,
        _ => CameraCommandGetRequest::CcInterval,
    }
}

/// The answer that reading back a set request's property should give.
pub open spec fn expected_answer(req: CameraCommandSetRequest, written: PtpValue) -> CameraCommandResponse {
    match req {
        CameraCommandSetRequest::ExposureMode { mode } => CameraCommandResponse::ExposureMode(mode),
        CameraCommandSetRequest::OperatingMode { mode } => CameraCommandResponse::OperatingMode(mode),
        CameraCommandSetRequest::SaveMode { mode } => CameraCommandResponse::SaveMode(mode),
        CameraCommandSetRequest::FocusMode { mode } => CameraCommandResponse::FocusMode(mode),
        CameraCommandSetRequest::ZoomLevel { level } => CameraCommandResponse::ZoomLevel(level as u8),
        _ => match written {
            PtpValue::UInt16(t) => CameraCommandResponse::CcIntervalTenths(t),
            _ => CameraCommandResponse::Unit,
        },
    }
}

/// What a set request writes, a get request of the same property reads back:
/// the property is the one that the get request reads, and once the camera
/// holds the written value the answer is the mode that was set, the zoom
/// level that was set (up to 255; the answer keeps the low byte), or the
/// interval as it was rounded.
pub proof fn lemma_get_reads_back_set(req: CameraCommandSetRequest)
    requires
        !(req is Other),
        spec_plan_set(req) is Ok,
    ensures
        ({
            let (code, written) = spec_plan_set(req)->Ok_0;
            &&& spec_get_property(get_of_set(req)) == code
            &&& spec_answer_get(get_of_set(req), Some(written)) == Ok::<
                CameraCommandResponse,
                GetError,
            >(expected_answer(req, written))
        }),
        req matches CameraCommandSetRequest::ZoomLevel { level } ==> (level < 256 ==> (
        expected_answer(req, spec_plan_set(req)->Ok_0.1) == CameraCommandResponse::ZoomLevel(
            level as u8,
        ) && level as u8 == level)),
{
    match req {
        CameraCommandSetRequest::ExposureMode { mode } => {
            crate::camera::state::lemma_exposure_mode_code_round_trip(mode, mode.code());
        },
        CameraCommandSetRequest::OperatingMode { mode } => {
            crate::camera::state::lemma_operating_mode_code_round_trip(mode, mode.code());
        },
        CameraCommandSetRequest::SaveMode { mode } => {
            crate::camera::state::lemma_save_mode_code_round_trip(mode, mode.code());
        },
        CameraCommandSetRequest::FocusMode { mode } => {
            crate::camera::state::lemma_focus_mode_code_round_trip(mode, mode.code());
        },
        _ => {},
    }
}

/// A rounded continuous capture interval is between 1 and 30 seconds, a
/// multiple of half a second, and at most half a second shorter than asked;
/// an interval that the exact check accepts is kept as it is by rounding.
pub proof fn lemma_cc_interval_rounding(tenths: u16)
    ensures
        spec_cc_interval_rounded(tenths) matches Ok(t) ==> 10 <= t <= 300 && t % 5 == 0 && t
            <= tenths && tenths < t + 5,
        spec_cc_interval_exact(tenths) matches Ok(t) ==> t == tenths && spec_cc_interval_rounded(
            tenths,
        ) == Ok::<u16, IntervalError>(t),
        spec_cc_interval_rounded(tenths) is Err <==> (tenths < 10 || tenths > 300),
{
}

/// The console names of the exposure modes: `m`, `manual` and
/// `manual-exposure` for manual exposure, `p` and `program-auto` for program
/// auto, and so on for each mode; any other text names none.
pub proof fn lemma_exposure_mode_names(s: Seq<char>)
    ensures
        CameraExposureMode::from_name("m"@) == Some(CameraExposureMode::ManualExposure),
        CameraExposureMode::from_name("manual"@) == Some(CameraExposureMode::ManualExposure),
        CameraExposureMode::from_name("manual-exposure"@) == Some(CameraExposureMode::ManualExposure),
        CameraExposureMode::from_name("p"@) == Some(CameraExposureMode::ProgramAuto),
        CameraExposureMode::from_name("program-auto"@) == Some(CameraExposureMode::ProgramAuto),
        CameraExposureMode::from_name("a"@) == Some(CameraExposureMode::AperturePriority),
        CameraExposureMode::from_name("aperture"@) == Some(CameraExposureMode::AperturePriority),
        CameraExposureMode::from_name("apeture-priority"@) == Some(CameraExposureMode::AperturePriority),
        CameraExposureMode::from_name("s"@) == Some(CameraExposureMode::ShutterPriority),
        CameraExposureMode::from_name("shutter"@) == Some(CameraExposureMode::ShutterPriority),
        CameraExposureMode::from_name("shutter-priority"@) == Some(CameraExposureMode::ShutterPriority),
        CameraExposureMode::from_name("i"@) == Some(CameraExposureMode::IntelligentAuto),
        CameraExposureMode::from_name("intelligent-auto"@) == Some(CameraExposureMode::IntelligentAuto),
        CameraExposureMode::from_name("superior-auto"@) == Some(CameraExposureMode::SuperiorAuto),
        CameraExposureMode::from_name("movie-program-auto"@) == Some(CameraExposureMode::MovieProgramAuto),
        CameraExposureMode::from_name("movie-aperture-priority"@) == Some(CameraExposureMode::MovieAperturePriority),
        CameraExposureMode::from_name("movie-shutter-priority"@) == Some(CameraExposureMode::MovieShutterPriority),
        CameraExposureMode::from_name("movie-manual-exposure"@) == Some(CameraExposureMode::MovieManualExposure),
        CameraExposureMode::from_name("movie-intelligent-auto"@) == Some(CameraExposureMode::MovieIntelligentAuto),
        !(s == "m"@ || s == "manual"@ || s == "manual-exposure"@ || s == "p"@ || s == "program-auto"@ || s == "a"@ || s == "aperture"@ || s == "apeture-priority"@ || s == "s"@ || s == "shutter"@ || s == "shutter-priority"@ || s == "i"@ || s == "intelligent-auto"@ || s == "superior-auto"@ || s == "movie-program-auto"@ || s == "movie-aperture-priority"@ || s == "movie-shutter-priority"@ || s == "movie-manual-exposure"@ || s == "movie-intelligent-auto"@) ==> CameraExposureMode::from_name(s) is None,
{
    reveal_strlit("m");
    reveal_strlit("manual");
    reveal_strlit("manual-exposure");
    reveal_strlit("p");
    reveal_strlit("program-auto");
    reveal_strlit("a");
    reveal_strlit("aperture");
    reveal_strlit("apeture-priority");
    reveal_strlit("s");
    reveal_strlit("shutter");
    reveal_strlit("shutter-priority");
    reveal_strlit("i");
    reveal_strlit("intelligent-auto");
    reveal_strlit("superior-auto");
    reveal_strlit("movie-program-auto");
    reveal_strlit("movie-aperture-priority");
    reveal_strlit("movie-shutter-priority");
    reveal_strlit("movie-manual-exposure");
    reveal_strlit("movie-intelligent-auto");
    assert("m"@.len() != "manual"@.len());
    assert("m"@.len() != "manual-exposure"@.len());
    assert("m"@[0] != "p"@[0]);
    assert("m"@.len() != "program-auto"@.len());
    assert("m"@[0] != "a"@[0]);
    assert("m"@.len() != "aperture"@.len());
    assert("m"@.len() != "apeture-priority"@.len());
    assert("m"@[0] != "s"@[0]);
    assert("m"@.len() != "shutter"@.len());
    assert("m"@.len() != "shutter-priority"@.len());
    assert("m"@[0] != "i"@[0]);
    assert("m"@.len() != "intelligent-auto"@.len());
    assert("m"@.len() != "superior-auto"@.len());
    assert("m"@.len() != "movie-program-auto"@.len());
    assert("m"@.len() != "movie-aperture-priority"@.len());
    assert("m"@.len() != "movie-shutter-priority"@.len());
    assert("m"@.len() != "movie-manual-exposure"@.len());
    assert("m"@.len() != "movie-intelligent-auto"@.len());
    assert("manual"@.len() != "manual-exposure"@.len());
    assert("manual"@.len() != "p"@.len());
    assert("manual"@.len() != "program-auto"@.len());
    assert("manual"@.len() != "a"@.len());
    assert("manual"@.len() != "aperture"@.len());
    assert("manual"@.len() != "apeture-priority"@.len());
    assert("manual"@.len() != "s"@.len());
    assert("manual"@.len() != "shutter"@.len());
    assert("manual"@.len() != "shutter-priority"@.len());
    assert("manual"@.len() != "i"@.len());
    assert("manual"@.len() != "intelligent-auto"@.len());
    assert("manual"@.len() != "superior-auto"@.len());
    assert("manual"@.len() != "movie-program-auto"@.len());
    assert("manual"@.len() != "movie-aperture-priority"@.len());
    assert("manual"@.len() != "movie-shutter-priority"@.len());
    assert("manual"@.len() != "movie-manual-exposure"@.len());
    assert("manual"@.len() != "movie-intelligent-auto"@.len());
    assert("manual-exposure"@.len() != "p"@.len());
    assert("manual-exposure"@.len() != "program-auto"@.len());
    assert("manual-exposure"@.len() != "a"@.len());
    assert("manual-exposure"@.len() != "aperture"@.len());
    assert("manual-exposure"@.len() != "apeture-priority"@.len());
    assert("manual-exposure"@.len() != "s"@.len());
    assert("manual-exposure"@.len() != "shutter"@.len());
    assert("manual-exposure"@.len() != "shutter-priority"@.len());
    assert("manual-exposure"@.len() != "i"@.len());
    assert("manual-exposure"@.len() != "intelligent-auto"@.len());
    assert("manual-exposure"@.len() != "superior-auto"@.len());
    assert("manual-exposure"@.len() != "movie-program-auto"@.len());
    assert("manual-exposure"@.len() != "movie-aperture-priority"@.len());
    assert("manual-exposure"@.len() != "movie-shutter-priority"@.len());
    assert("manual-exposure"@.len() != "movie-manual-exposure"@.len());
    assert("manual-exposure"@.len() != "movie-intelligent-auto"@.len());
    assert("p"@.len() != "program-auto"@.len());
    assert("p"@[0] != "a"@[0]);
    assert("p"@.len() != "aperture"@.len());
    assert("p"@.len() != "apeture-priority"@.len());
    assert("p"@[0] != "s"@[0]);
    assert("p"@.len() != "shutter"@.len());
    assert("p"@.len() != "shutter-priority"@.len());
    assert("p"@[0] != "i"@[0]);
    assert("p"@.len() != "intelligent-auto"@.len());
    assert("p"@.len() != "superior-auto"@.len());
    assert("p"@.len() != "movie-program-auto"@.len());
    assert("p"@.len() != "movie-aperture-priority"@.len());
    assert("p"@.len() != "movie-shutter-priority"@.len());
    assert("p"@.len() != "movie-manual-exposure"@.len());
    assert("p"@.len() != "movie-intelligent-auto"@.len());
    assert("program-auto"@.len() != "a"@.len());
    assert("program-auto"@.len() != "aperture"@.len());
    assert("program-auto"@.len() != "apeture-priority"@.len());
    assert("program-auto"@.len() != "s"@.len());
    assert("program-auto"@.len() != "shutter"@.len());
    assert("program-auto"@.len() != "shutter-priority"@.len());
    assert("program-auto"@.len() != "i"@.len());
    assert("program-auto"@.len() != "intelligent-auto"@.len());
    assert("program-auto"@.len() != "superior-auto"@.len());
    assert("program-auto"@.len() != "movie-program-auto"@.len());
    assert("program-auto"@.len() != "movie-aperture-priority"@.len());
    assert("program-auto"@.len() != "movie-shutter-priority"@.len());
    assert("program-auto"@.len() != "movie-manual-exposure"@.len());
    assert("program-auto"@.len() != "movie-intelligent-auto"@.len());
    assert("a"@.len() != "aperture"@.len());
    assert("a"@.len() != "apeture-priority"@.len());
    assert("a"@[0] != "s"@[0]);
    assert("a"@.len() != "shutter"@.len());
    assert("a"@.len() != "shutter-priority"@.len());
    assert("a"@[0] != "i"@[0]);
    assert("a"@.len() != "intelligent-auto"@.len());
    assert("a"@.len() != "superior-auto"@.len());
    assert("a"@.len() != "movie-program-auto"@.len());
    assert("a"@.len() != "movie-aperture-priority"@.len());
    assert("a"@.len() != "movie-shutter-priority"@.len());
    assert("a"@.len() != "movie-manual-exposure"@.len());
    assert("a"@.len() != "movie-intelligent-auto"@.len());
    assert("aperture"@.len() != "apeture-priority"@.len());
    assert("aperture"@.len() != "s"@.len());
    assert("aperture"@.len() != "shutter"@.len());
    assert("aperture"@.len() != "shutter-priority"@.len());
    assert("aperture"@.len() != "i"@.len());
    assert("aperture"@.len() != "intelligent-auto"@.len());
    assert("aperture"@.len() != "superior-auto"@.len());
    assert("aperture"@.len() != "movie-program-auto"@.len());
    assert("aperture"@.len() != "movie-aperture-priority"@.len());
    assert("aperture"@.len() != "movie-shutter-priority"@.len());
    assert("aperture"@.len() != "movie-manual-exposure"@.len());
    assert("aperture"@.len() != "movie-intelligent-auto"@.len());
    assert("apeture-priority"@.len() != "s"@.len());
    assert("apeture-priority"@.len() != "shutter"@.len());
    assert("apeture-priority"@[0] != "shutter-priority"@[0]);
    assert("apeture-priority"@.len() != "i"@.len());
    assert("apeture-priority"@[0] != "intelligent-auto"@[0]);
    assert("apeture-priority"@.len() != "superior-auto"@.len());
    assert("apeture-priority"@.len() != "movie-program-auto"@.len());
    assert("apeture-priority"@.len() != "movie-aperture-priority"@.len());
    assert("apeture-priority"@.len() != "movie-shutter-priority"@.len());
    assert("apeture-priority"@.len() != "movie-manual-exposure"@.len());
    assert("apeture-priority"@.len() != "movie-intelligent-auto"@.len());
    assert("s"@.len() != "shutter"@.len());
    assert("s"@.len() != "shutter-priority"@.len());
    assert("s"@[0] != "i"@[0]);
    assert("s"@.len() != "intelligent-auto"@.len());
    assert("s"@.len() != "superior-auto"@.len());
    assert("s"@.len() != "movie-program-auto"@.len());
    assert("s"@.len() != "movie-aperture-priority"@.len());
    assert("s"@.len() != "movie-shutter-priority"@.len());
    assert("s"@.len() != "movie-manual-exposure"@.len());
    assert("s"@.len() != "movie-intelligent-auto"@.len());
    assert("shutter"@.len() != "shutter-priority"@.len());
    assert("shutter"@.len() != "i"@.len());
    assert("shutter"@.len() != "intelligent-auto"@.len());
    assert("shutter"@.len() != "superior-auto"@.len());
    assert("shutter"@.len() != "movie-program-auto"@.len());
    assert("shutter"@.len() != "movie-aperture-priority"@.len());
    assert("shutter"@.len() != "movie-shutter-priority"@.len());
    assert("shutter"@.len() != "movie-manual-exposure"@.len());
    assert("shutter"@.len() != "movie-intelligent-auto"@.len());
    assert("shutter-priority"@.len() != "i"@.len());
    assert("shutter-priority"@[0] != "intelligent-auto"@[0]);
    assert("shutter-priority"@.len() != "superior-auto"@.len());
    assert("shutter-priority"@.len() != "movie-program-auto"@.len());
    assert("shutter-priority"@.len() != "movie-aperture-priority"@.len());
    assert("shutter-priority"@.len() != "movie-shutter-priority"@.len());
    assert("shutter-priority"@.len() != "movie-manual-exposure"@.len());
    assert("shutter-priority"@.len() != "movie-intelligent-auto"@.len());
    assert("i"@.len() != "intelligent-auto"@.len());
    assert("i"@.len() != "superior-auto"@.len());
    assert("i"@.len() != "movie-program-auto"@.len());
    assert("i"@.len() != "movie-aperture-priority"@.len());
    assert("i"@.len() != "movie-shutter-priority"@.len());
    assert("i"@.len() != "movie-manual-exposure"@.len());
    assert("i"@.len() != "movie-intelligent-auto"@.len());
    assert("intelligent-auto"@.len() != "superior-auto"@.len());
    assert("intelligent-auto"@.len() != "movie-program-auto"@.len());
    assert("intelligent-auto"@.len() != "movie-aperture-priority"@.len());
    assert("intelligent-auto"@.len() != "movie-shutter-priority"@.len());
    assert("intelligent-auto"@.len() != "movie-manual-exposure"@.len());
    assert("intelligent-auto"@.len() != "movie-intelligent-auto"@.len());
    assert("superior-auto"@.len() != "movie-program-auto"@.len());
    assert("superior-auto"@.len() != "movie-aperture-priority"@.len());
    assert("superior-auto"@.len() != "movie-shutter-priority"@.len());
    assert("superior-auto"@.len() != "movie-manual-exposure"@.len());
    assert("superior-auto"@.len() != "movie-intelligent-auto"@.len());
    assert("movie-program-auto"@.len() != "movie-aperture-priority"@.len());
    assert("movie-program-auto"@.len() != "movie-shutter-priority"@.len());
    assert("movie-program-auto"@.len() != "movie-manual-exposure"@.len());
    assert("movie-program-auto"@.len() != "movie-intelligent-auto"@.len());
    assert("movie-aperture-priority"@.len() != "movie-shutter-priority"@.len());
    assert("movie-aperture-priority"@.len() != "movie-manual-exposure"@.len());
    assert("movie-aperture-priority"@.len() != "movie-intelligent-auto"@.len());
    assert("movie-shutter-priority"@.len() != "movie-manual-exposure"@.len());
    assert("movie-shutter-priority"@[6] != "movie-intelligent-auto"@[6]);
    assert("movie-manual-exposure"@.len() != "movie-intelligent-auto"@.len());
}

/// The console names of the save media: `host` and `host-device` for the
/// host, `cam` and `camera` for the memory card; any other text names none.
pub proof fn lemma_save_mode_names(s: Seq<char>)
    ensures
        CameraSaveMode::from_name("host"@) == Some(CameraSaveMode::HostDevice),
        CameraSaveMode::from_name("host-device"@) == Some(CameraSaveMode::HostDevice),
        CameraSaveMode::from_name("cam"@) == Some(CameraSaveMode::MemoryCard1),
        CameraSaveMode::from_name("camera"@) == Some(CameraSaveMode::MemoryCard1),
        !(s == "host"@ || s == "host-device"@ || s == "cam"@ || s == "camera"@) ==> CameraSaveMode::from_name(s) is None,
{
    reveal_strlit("host");
    reveal_strlit("host-device");
    reveal_strlit("cam");
    reveal_strlit("camera");
    assert("host"@.len() != "host-device"@.len());
    assert("host"@.len() != "cam"@.len());
    assert("host"@.len() != "camera"@.len());
    assert("host-device"@.len() != "cam"@.len());
    assert("host-device"@.len() != "camera"@.len());
    assert("cam"@.len() != "camera"@.len());
}

/// The console names of the zoom modes: `o` and `optical` for optical zoom,
/// `od` and `optical-digital` for optical and digital zoom; any other text
/// names none.
pub proof fn lemma_zoom_mode_names(s: Seq<char>)
    ensures
        CameraZoomMode::from_name("o"@) == Some(CameraZoomMode::Optical),
        CameraZoomMode::from_name("optical"@) == Some(CameraZoomMode::Optical),
        CameraZoomMode::from_name("od"@) == Some(CameraZoomMode::OpticalDigital),
        CameraZoomMode::from_name("optical-digital"@) == Some(CameraZoomMode::OpticalDigital),
        !(s == "o"@ || s == "optical"@ || s == "od"@ || s == "optical-digital"@) ==> CameraZoomMode::from_name(s) is None,
{
    reveal_strlit("o");
    reveal_strlit("optical");
    reveal_strlit("od");
    reveal_strlit("optical-digital");
    assert("o"@.len() != "optical"@.len());
    assert("o"@.len() != "od"@.len());
    assert("o"@.len() != "optical-digital"@.len());
    assert("optical"@.len() != "od"@.len());
    assert("optical"@.len() != "optical-digital"@.len());
    assert("od"@.len() != "optical-digital"@.len());
}

/// The console names of the operating modes: `standby`; `still` and `image`
/// for still recording; `movie` and `video` for movie recording; `transfer`
/// for contents transfer; any other text names none.
pub proof fn lemma_operating_mode_names(s: Seq<char>)
    ensures
        CameraOperatingMode::from_name("standby"@) == Some(CameraOperatingMode::Standby),
        CameraOperatingMode::from_name("still"@) == Some(CameraOperatingMode::StillRec),
        CameraOperatingMode::from_name("image"@) == Some(CameraOperatingMode::StillRec),
        CameraOperatingMode::from_name("movie"@) == Some(CameraOperatingMode::MovieRec),
        CameraOperatingMode::from_name("video"@) == Some(CameraOperatingMode::MovieRec),
        CameraOperatingMode::from_name("transfer"@) == Some(CameraOperatingMode::ContentsTransfer),
        !(s == "standby"@ || s == "still"@ || s == "image"@ || s == "movie"@ || s == "video"@ || s == "transfer"@) ==> CameraOperatingMode::from_name(s) is None,
{
    reveal_strlit("standby");
    reveal_strlit("still");
    reveal_strlit("image");
    reveal_strlit("movie");
    reveal_strlit("video");
    reveal_strlit("transfer");
    assert("standby"@.len() != "still"@.len());
    assert("standby"@.len() != "image"@.len());
    assert("standby"@.len() != "movie"@.len());
    assert("standby"@.len() != "video"@.len());
    assert("standby"@.len() != "transfer"@.len());
    assert("still"@[0] != "image"@[0]);
    assert("still"@[0] != "movie"@[0]);
    assert("still"@[0] != "video"@[0]);
    assert("still"@.len() != "transfer"@.len());
    assert("image"@[0] != "movie"@[0]);
    assert("image"@[0] != "video"@[0]);
    assert("image"@.len() != "transfer"@.len());
    assert("movie"@[0] != "video"@[0]);
    assert("movie"@.len() != "transfer"@.len());
    assert("video"@.len() != "transfer"@.len());
}

/// The console names of the focus modes: `manual` and `m` for manual focus,
/// `afc` for continuous autofocus, `afs` for single-shot autofocus; any other
/// text names none.
pub proof fn lemma_focus_mode_names(s: Seq<char>)
    ensures
        CameraFocusMode::from_name("manual"@) == Some(CameraFocusMode::Manual),
        CameraFocusMode::from_name("m"@) == Some(CameraFocusMode::Manual),
        CameraFocusMode::from_name("afc"@) == Some(CameraFocusMode::AutoFocusContinuous),
        CameraFocusMode::from_name("afs"@) == Some(CameraFocusMode::AutoFocusStill),
        !(s == "manual"@ || s == "m"@ || s == "afc"@ || s == "afs"@) ==> CameraFocusMode::from_name(s) is None,
{
    reveal_strlit("manual");
    reveal_strlit("m");
    reveal_strlit("afc");
    reveal_strlit("afs");
    assert("manual"@.len() != "m"@.len());
    assert("manual"@.len() != "afc"@.len());
    assert("manual"@.len() != "afs"@.len());
    assert("m"@.len() != "afc"@.len());
    assert("m"@.len() != "afs"@.len());
    assert("afc"@[2] != "afs"@[2]);
}

/// Taking a picture presses and releases the shutter in the camera's
/// protocol: `S1Button` (0xD61D) pressed (2), `S2Button` (0xD617) pressed,
/// `S2Button` released (1), `S1Button` released; the full press comes between
/// the half press and its release.
pub proof fn lemma_capture_sequence_presses_shutter()
    ensures
        capture_sequence().len() == 4,
        capture_sequence()[0].0.code() == 0xD61Du16,
        capture_sequence()[1].0.code() == 0xD617u16,
        capture_sequence()[2].0.code() == 0xD617u16,
        capture_sequence()[3].0.code() == 0xD61Du16,
        capture_sequence()[0].1 == PtpValue::UInt16(2u16),
        capture_sequence()[1].1 == PtpValue::UInt16(2u16),
        capture_sequence()[2].1 == PtpValue::UInt16(1u16),
        capture_sequence()[3].1 == PtpValue::UInt16(1u16),
{
    crate::camera::interface::lemma_control_code_table();
}

/// A set request writes the property that the camera names for it, with the
/// mode's code as the value: exposure mode at 0xD6CC and focus mode at
/// 0xD6CB as 16-bit values, the operating mode at 0xD6E2 as an 8-bit value,
/// the save medium at 0xD6CF, the zoom level as it is at 0xD6BE, and the
/// continuous capture interval, rounded down to half seconds, at 0xD631.
pub proof fn lemma_set_writes_camera_properties(req: CameraCommandSetRequest)
    requires
        !(req is Other),
    ensures
        match req {
            CameraCommandSetRequest::ExposureMode { mode } => spec_plan_set(req) == Ok::<
                (CameraPropertyCode, PtpValue),
                IntervalError,
            >((CameraPropertyCode::ExposureMode, PtpValue::UInt16(mode.code())))
                && CameraPropertyCode::ExposureMode.code() == 0xD6CCu16,
            CameraCommandSetRequest::OperatingMode { mode } => spec_plan_set(req) == Ok::<
                (CameraPropertyCode, PtpValue),
                IntervalError,
            >((CameraPropertyCode::OperatingMode, PtpValue::UInt8(mode.code())))
                && CameraPropertyCode::OperatingMode.code() == 0xD6E2u16,
            CameraCommandSetRequest::SaveMode { mode } => spec_plan_set(req) == Ok::<
                (CameraPropertyCode, PtpValue),
                IntervalError,
            >((CameraPropertyCode::SaveMedia, PtpValue::UInt16(mode.code())))
                && CameraPropertyCode::SaveMedia.code() == 0xD6CFu16,
            CameraCommandSetRequest::FocusMode { mode } => spec_plan_set(req) == Ok::<
                (CameraPropertyCode, PtpValue),
                IntervalError,
            >((CameraPropertyCode::FocusMode, PtpValue::UInt16(mode.code())))
                && CameraPropertyCode::FocusMode.code() == 0xD6CBu16,
            CameraCommandSetRequest::ZoomLevel { level } => spec_plan_set(req) == Ok::<
                (CameraPropertyCode, PtpValue),
                IntervalError,
            >((CameraPropertyCode::ZoomAbsolutePosition, PtpValue::UInt16(level)))
                && CameraPropertyCode::ZoomAbsolutePosition.code() == 0xD6BEu16,
            CameraCommandSetRequest::CcInterval { interval_tenths } => (10 <= interval_tenths
                <= 300 ==> spec_plan_set(req) == Ok::<(CameraPropertyCode, PtpValue), IntervalError>(
                (
                    CameraPropertyCode::IntervalTime,
                    PtpValue::UInt16((interval_tenths - interval_tenths % 5) as u16),
                ),
            )) && CameraPropertyCode::IntervalTime.code() == 0xD631u16,
            _ => true,
        },
{
    crate::camera::interface::lemma_property_code_table();
}

/// A capture needs the camera in still recording (operating mode 2), a look
/// at storage or files needs it in contents transfer (4), and no other request
/// changes the operating mode.
pub proof fn lemma_required_modes(req: CameraCommandRequest)
    ensures
        req is Capture ==> spec_required_mode(req) == Some(CameraOperatingMode::StillRec)
            && CameraOperatingMode::StillRec.code() == 2u8,
        (req is Storage || req is File) ==> spec_required_mode(req) == Some(
            CameraOperatingMode::ContentsTransfer,
        ) && CameraOperatingMode::ContentsTransfer.code() == 4u8,
        !(req is Capture || req is Storage || req is File) ==> spec_required_mode(req) is None,
{
    crate::camera::state::lemma_operating_mode_code_table();
}

} // verus!
