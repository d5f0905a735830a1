use vstd::prelude::*;

use crate::seq_facts::{lemma_push_contains, lemma_push_no_duplicates};

verus! {

/// Sony's USB vendor ID.
pub const SONY_USB_VID: u16 = 0x054C;

/// The Sony R10C camera's USB product ID.
pub const SONY_USB_PID: u16 = 0x0A79;

/// Sony's PTP extension vendor ID.
pub const SONY_PTP_VID: u16 = 0x0011;

/// The key code sent with each phase of `SDIO_Connect`.
pub const SDIO_KEY_CODE: u32 = 0x0000DA01;

/// The initiator version sent with `SDIO_GetExtDeviceInfo`.
pub const SDIO_INITIATOR_VERSION: u32 = 0x00C8;

/// How many times `SDIO_GetExtDeviceInfo` is retried while the camera is not
/// ready, after the first attempt.
pub const EXT_DEVICE_INFO_RETRIES: u32 = 1000;

/// The Sony SDIO extension operations of the PTP protocol.
#[derive(Clone, Copy, Debug, PartialEq, Eq, Structural)]
pub enum SonyCommandCode {
    SdioConnect,
    SdioGetExtDeviceInfo,
    SdioSetExtDevicePropValue,
    SdioControlDevice,
    SdioGetAllExtDevicePropInfo,
    SdioSendUpdateFile,
    SdioGetExtLensInfo,
    SdioExtDeviceDeleteObject,
}

impl SonyCommandCode {
    /// The numeric code of the value, as the camera encodes it.
    pub open spec fn code(self) -> u16 {
        match self {
            SonyCommandCode::SdioConnect => 0x96FE,
            SonyCommandCode::SdioGetExtDeviceInfo => 0x96FD,
            SonyCommandCode::SdioSetExtDevicePropValue => 0x96FA,
            SonyCommandCode::SdioControlDevice => 0x96F8,
            SonyCommandCode::SdioGetAllExtDevicePropInfo => 0x96F6,
            SonyCommandCode::SdioSendUpdateFile => 0x96F5,
            SonyCommandCode::SdioGetExtLensInfo => 0x96F4,
            SonyCommandCode::SdioExtDeviceDeleteObject => 0x96F1,
        }
    }

    /// The value whose code is `v`, if there is one.
    pub open spec fn from_code(v: u16) -> Option<SonyCommandCode> {
        if v == 0x96FE {
            Some(SonyCommandCode::SdioConnect)
        } else if v == 0x96FD {
            Some(SonyCommandCode::SdioGetExtDeviceInfo)
        } else if v == 0x96FA {
            Some(SonyCommandCode::SdioSetExtDevicePropValue)
        } else if v == 0x96F8 {
            Some(SonyCommandCode::SdioControlDevice)
        } else if v == 0x96F6 {
            Some(SonyCommandCode::SdioGetAllExtDevicePropInfo)
        } else if v == 0x96F5 {
            Some(SonyCommandCode::SdioSendUpdateFile)
        } else if v == 0x96F4 {
            Some(SonyCommandCode::SdioGetExtLensInfo)
        } else if v == 0x96F1 {
            Some(SonyCommandCode::SdioExtDeviceDeleteObject)
        } else {
            None
        }
    }

    /// The numeric code of this value.
    pub fn to_u16(&self) -> (r: u16)
        ensures
            r == self.code(),
    {
        match self {
            SonyCommandCode::SdioConnect => 0x96FE,
            SonyCommandCode::SdioGetExtDeviceInfo => 0x96FD,
            SonyCommandCode::SdioSetExtDevicePropValue => 0x96FA,
            SonyCommandCode::SdioControlDevice => 0x96F8,
            SonyCommandCode::SdioGetAllExtDevicePropInfo => 0x96F6,
            SonyCommandCode::SdioSendUpdateFile => 0x96F5,
            SonyCommandCode::SdioGetExtLensInfo => 0x96F4,
            SonyCommandCode::SdioExtDeviceDeleteObject => 0x96F1,
        }
    }

    /// Decodes a numeric code; `None` for a code that names no value.
    pub fn from_u16(v: u16) -> (r: Option<SonyCommandCode>)
        ensures
            r == SonyCommandCode::from_code(v),
    {
        if v == 0x96FE {
            Some(SonyCommandCode::SdioConnect)
        } else if v == 0x96FD {
            Some(SonyCommandCode::SdioGetExtDeviceInfo)
        } else if v == 0x96FA {
            Some(SonyCommandCode::SdioSetExtDevicePropValue)
        } else if v == 0x96F8 {
            Some(SonyCommandCode::SdioControlDevice)
        } else if v == 0x96F6 {
            Some(SonyCommandCode::SdioGetAllExtDevicePropInfo)
        } else if v == 0x96F5 {
            Some(SonyCommandCode::SdioSendUpdateFile)
        } else if v == 0x96F4 {
            Some(SonyCommandCode::SdioGetExtLensInfo)
        } else if v == 0x96F1 {
            Some(SonyCommandCode::SdioExtDeviceDeleteObject)
        } else {
            None
        }
    }
}

/// Decoding the code of a `SonyCommandCode` gives the value back, and a code
/// that decodes to a value is that value's code.
pub proof fn lemma_command_code_code_round_trip(m: SonyCommandCode, v: u16)
    ensures
        SonyCommandCode::from_code(m.code()) == Some(m),
        SonyCommandCode::from_code(v) matches Some(n) ==> n.code() == v,
{
}

/// The properties of the camera that the SDIO extension exposes.
#[derive(Clone, Copy, Debug, PartialEq, Eq, Structural, Hash)]
pub enum SonyDevicePropertyCode {
    AELock,
    AspectRatio,
    BatteryLevel,
    BatteryRemain,
    BiaxialAB,
    BiaxialGM,
    CaptureCount,
    Caution,
    ColorTemperature,
    Compression,
    DateTime,
    DriveMode,
    ExposureCompensation,
    ExposureMode,
    FNumber,
    FocusIndication,
    FocusMagnificationLevel,
    FocusMagnificationPosition,
    FocusMagnificationState,
    FocusMode,
    ImageSize,
    IntervalStillRecordingState,
    IntervalTime,
    ISO,
    LensStatus,
    LensUpdateState,
    LiveViewResolution,
    LiveViewStatus,
    LocationInfo,
    MediaFormatState,
    MovieFormat,
    MovieQuality,
    MovieRecording,
    MovieSteady,
    NotifyFocus,
    OperatingMode,
    SaveMedia,
    ShootingFileInfo,
    ShutterSpeed,
    StillSteadyMode,
    StorageInfo,
    WhiteBalance,
    WhiteBalanceInit,
    ZoomInfo,
    ZoomMagnificationInfo,
    ZoomAbsolutePosition,
    Zoom,
}

impl SonyDevicePropertyCode {
    /// The numeric code of the value, as the camera encodes it.
    pub open spec fn code(self) -> u16 {
        match self {
            SonyDevicePropertyCode::AELock => 0xD6E8,
            SonyDevicePropertyCode::AspectRatio => 0xD6B3,
            SonyDevicePropertyCode::BatteryLevel => 0xD6F1,
            SonyDevicePropertyCode::BatteryRemain => 0xD6E7,
            SonyDevicePropertyCode::BiaxialAB => 0xD6E3,
            SonyDevicePropertyCode::BiaxialGM => 0xD6EF,
            SonyDevicePropertyCode::CaptureCount => 0xD633,
            SonyDevicePropertyCode::Caution => 0xD6BA,
            SonyDevicePropertyCode::ColorTemperature => 0xD6F0,
            SonyDevicePropertyCode::Compression => 0xD6B9,
            SonyDevicePropertyCode::DateTime => 0xD6B1,
            SonyDevicePropertyCode::DriveMode => 0xD6B0,
            SonyDevicePropertyCode::ExposureCompensation => 0xD6C3,
            SonyDevicePropertyCode::ExposureMode => 0xD6CC,
            SonyDevicePropertyCode::FNumber => 0xD6C5,
            SonyDevicePropertyCode::FocusIndication => 0xD6EC,
            SonyDevicePropertyCode::FocusMagnificationLevel => 0xD6A7,
            SonyDevicePropertyCode::FocusMagnificationPosition => 0xD6A8,
            SonyDevicePropertyCode::FocusMagnificationState => 0xD6A6,
            SonyDevicePropertyCode::FocusMode => 0xD6CB,
            SonyDevicePropertyCode::ImageSize => 0xD6B7,
            SonyDevicePropertyCode::IntervalStillRecordingState => 0xD632,
            SonyDevicePropertyCode::IntervalTime => 0xD631,
            SonyDevicePropertyCode::ISO => 0xD6F2,
            SonyDevicePropertyCode::LensStatus => 0xD6A9,
            SonyDevicePropertyCode::LensUpdateState => 0xD624,
            SonyDevicePropertyCode::LiveViewResolution => 0xD6AA,
            SonyDevicePropertyCode::LiveViewStatus => 0xD6DE,
            SonyDevicePropertyCode::LocationInfo => 0xD6C0,
            SonyDevicePropertyCode::MediaFormatState => 0xD6C7,
            SonyDevicePropertyCode::MovieFormat => 0xD6BD,
            SonyDevicePropertyCode::MovieQuality => 0xD6BC,
            SonyDevicePropertyCode::MovieRecording => 0xD6CD,
            SonyDevicePropertyCode::MovieSteady => 0xD6D1,
            SonyDevicePropertyCode::NotifyFocus => 0xD6AF,
            SonyDevicePropertyCode::OperatingMode => 0xD6E2,
            SonyDevicePropertyCode::SaveMedia => 0xD6CF,
            SonyDevicePropertyCode::ShootingFileInfo => 0xD6C6,
            SonyDevicePropertyCode::ShutterSpeed => 0xD6EA,
            SonyDevicePropertyCode::StillSteadyMode => 0xD6D0,
            SonyDevicePropertyCode::StorageInfo => 0xD6BB,
            SonyDevicePropertyCode::WhiteBalance => 0xD6B8,
            SonyDevicePropertyCode::WhiteBalanceInit => 0xD6DF,
            SonyDevicePropertyCode::ZoomInfo => 0xD6BF,
            SonyDevicePropertyCode::ZoomMagnificationInfo => 0xD63A,
            SonyDevicePropertyCode::ZoomAbsolutePosition => 0xD6BE,
            SonyDevicePropertyCode::Zoom => 0xD6C9,
        }
    }

    /// The value whose code is `v`, if there is one.
    pub open spec fn from_code(v: u16) -> Option<SonyDevicePropertyCode> {
        if v == 0xD6E8 {
            Some(SonyDevicePropertyCode::AELock)
        } else if v == 0xD6B3 {
            Some(SonyDevicePropertyCode::AspectRatio)
        } else if v == 0xD6F1 {
            Some(SonyDevicePropertyCode::BatteryLevel)
        } else if v == 0xD6E7 {
            Some(SonyDevicePropertyCode::BatteryRemain)
        } else if v == 0xD6E3 {
            Some(SonyDevicePropertyCode::BiaxialAB)
        } else if v == 0xD6EF {
            Some(SonyDevicePropertyCode::BiaxialGM)
        } else if v == 0xD633 {
            Some(SonyDevicePropertyCode::CaptureCount)
        } else if v == 0xD6BA {
            Some(SonyDevicePropertyCode::Caution)
        } else if v == 0xD6F0 {
            Some(SonyDevicePropertyCode::ColorTemperature)
        } else if v == 0xD6B9 {
            Some(SonyDevicePropertyCode::Compression)
        } else if v == 0xD6B1 {
            Some(SonyDevicePropertyCode::DateTime)
        } else if v == 0xD6B0 {
            Some(SonyDevicePropertyCode::DriveMode)
        } else if v == 0xD6C3 {
            Some(SonyDevicePropertyCode::ExposureCompensation)
        } else if v == 0xD6CC {
            Some(SonyDevicePropertyCode::ExposureMode)
        } else if v == 0xD6C5 {
            Some(SonyDevicePropertyCode::FNumber)
        } else if v == 0xD6EC {
            Some(SonyDevicePropertyCode::FocusIndication)
        } else if v == 0xD6A7 {
            Some(SonyDevicePropertyCode::FocusMagnificationLevel)
        } else if v == 0xD6A8 {
            Some(SonyDevicePropertyCode::FocusMagnificationPosition)
        } else if v == 0xD6A6 {
            Some(SonyDevicePropertyCode::FocusMagnificationState)
        } else if v == 0xD6CB {
            Some(SonyDevicePropertyCode::FocusMode)
        } else if v == 0xD6B7 {
            Some(SonyDevicePropertyCode::ImageSize)
        } else if v == 0xD632 {
            Some(SonyDevicePropertyCode::IntervalStillRecordingState)
        } else if v == 0xD631 {
            Some(SonyDevicePropertyCode::IntervalTime)
        } else if v == 0xD6F2 {
            Some(SonyDevicePropertyCode::ISO)
        } else if v == 0xD6A9 {
            Some(SonyDevicePropertyCode::LensStatus)
        } else if v == 0xD624 {
            Some(SonyDevicePropertyCode::LensUpdateState)
        } else if v == 0xD6AA {
            Some(SonyDevicePropertyCode::LiveViewResolution)
        } else if v == 0xD6DE {
            Some(SonyDevicePropertyCode::LiveViewStatus)
        } else if v == 0xD6C0 {
            Some(SonyDevicePropertyCode::LocationInfo)
        } else if v == 0xD6C7 {
            Some(SonyDevicePropertyCode::MediaFormatState)
        } else if v == 0xD6BD {
            Some(SonyDevicePropertyCode::MovieFormat)
        } else if v == 0xD6BC {
            Some(SonyDevicePropertyCode::MovieQuality)
        } else if v == 0xD6CD {
            Some(SonyDevicePropertyCode::MovieRecording)
        } else if v == 0xD6D1 {
            Some(SonyDevicePropertyCode::MovieSteady)
        } else if v == 0xD6AF {
            Some(SonyDevicePropertyCode::NotifyFocus)
        } else if v == 0xD6E2 {
            Some(SonyDevicePropertyCode::OperatingMode)
        } else if v == 0xD6CF {
            Some(SonyDevicePropertyCode::SaveMedia)
        } else if v == 0xD6C6 {
            Some(SonyDevicePropertyCode::ShootingFileInfo)
        } else if v == 0xD6EA {
            Some(SonyDevicePropertyCode::ShutterSpeed)
        } else if v == 0xD6D0 {
            Some(SonyDevicePropertyCode::StillSteadyMode)
        } else if v == 0xD6BB {
            Some(SonyDevicePropertyCode::StorageInfo)
        } else if v == 0xD6B8 {
            Some(SonyDevicePropertyCode::WhiteBalance)
        } else if v == 0xD6DF {
            Some(SonyDevicePropertyCode::WhiteBalanceInit)
        } else if v == 0xD6BF {
            Some(SonyDevicePropertyCode::ZoomInfo)
        } else if v == 0xD63A {
            Some(SonyDevicePropertyCode::ZoomMagnificationInfo)
        } else if v == 0xD6BE {
            Some(SonyDevicePropertyCode::ZoomAbsolutePosition)
        } else if v == 0xD6C9 {
            Some(SonyDevicePropertyCode::Zoom)
        } else {
            None
        }
    }

    /// The numeric code of this value.
    pub fn to_u16(&self) -> (r: u16)
        ensures
            r == self.code(),
    {
        match self {
            SonyDevicePropertyCode::AELock => 0xD6E8,
            SonyDevicePropertyCode::AspectRatio => 0xD6B3,
            SonyDevicePropertyCode::BatteryLevel => 0xD6F1,
            SonyDevicePropertyCode::BatteryRemain => 0xD6E7,
            SonyDevicePropertyCode::BiaxialAB => 0xD6E3,
            SonyDevicePropertyCode::BiaxialGM => 0xD6EF,
            SonyDevicePropertyCode::CaptureCount => 0xD633,
            SonyDevicePropertyCode::Caution => 0xD6BA,
            SonyDevicePropertyCode::ColorTemperature => 0xD6F0,
            SonyDevicePropertyCode::Compression => 0xD6B9,
            SonyDevicePropertyCode::DateTime => 0xD6B1,
            SonyDevicePropertyCode::DriveMode => 0xD6B0,
            SonyDevicePropertyCode::ExposureCompensation => 0xD6C3,
            SonyDevicePropertyCode::ExposureMode => 0xD6CC,
            SonyDevicePropertyCode::FNumber => 0xD6C5,
            SonyDevicePropertyCode::FocusIndication => 0xD6EC,
            SonyDevicePropertyCode::FocusMagnificationLevel => 0xD6A7,
            SonyDevicePropertyCode::FocusMagnificationPosition => 0xD6A8,
            SonyDevicePropertyCode::FocusMagnificationState => 0xD6A6,
            SonyDevicePropertyCode::FocusMode => 0xD6CB,
            SonyDevicePropertyCode::ImageSize => 0xD6B7,
            SonyDevicePropertyCode::IntervalStillRecordingState => 0xD632,
            SonyDevicePropertyCode::IntervalTime => 0xD631,
            SonyDevicePropertyCode::ISO => 0xD6F2,
            SonyDevicePropertyCode::LensStatus => 0xD6A9,
            SonyDevicePropertyCode::LensUpdateState => 0xD624,
            SonyDevicePropertyCode::LiveViewResolution => 0xD6AA,
            SonyDevicePropertyCode::LiveViewStatus => 0xD6DE,
            SonyDevicePropertyCode::LocationInfo => 0xD6C0,
            SonyDevicePropertyCode::MediaFormatState => 0xD6C7,
            SonyDevicePropertyCode::MovieFormat => 0xD6BD,
            SonyDevicePropertyCode::MovieQuality => 0xD6BC,
            SonyDevicePropertyCode::MovieRecording => 0xD6CD,
            SonyDevicePropertyCode::MovieSteady => 0xD6D1,
            SonyDevicePropertyCode::NotifyFocus => 0xD6AF,
            SonyDevicePropertyCode::OperatingMode => 0xD6E2,
            SonyDevicePropertyCode::SaveMedia => 0xD6CF,
            SonyDevicePropertyCode::ShootingFileInfo => 0xD6C6,
            SonyDevicePropertyCode::ShutterSpeed => 0xD6EA,
            SonyDevicePropertyCode::StillSteadyMode => 0xD6D0,
            SonyDevicePropertyCode::StorageInfo => 0xD6BB,
            SonyDevicePropertyCode::WhiteBalance => 0xD6B8,
            SonyDevicePropertyCode::WhiteBalanceInit => 0xD6DF,
            SonyDevicePropertyCode::ZoomInfo => 0xD6BF,
            SonyDevicePropertyCode::ZoomMagnificationInfo => 0xD63A,
            SonyDevicePropertyCode::ZoomAbsolutePosition => 0xD6BE,
            SonyDevicePropertyCode::Zoom => 0xD6C9,
        }
    }

    /// Decodes a numeric code; `None` for a code that names no value.
    pub fn from_u16(v: u16) -> (r: Option<SonyDevicePropertyCode>)
        ensures
            r == SonyDevicePropertyCode::from_code(v),
    {
        if v == 0xD6E8 {
            Some(SonyDevicePropertyCode::AELock)
        } else if v == 0xD6B3 {
            Some(SonyDevicePropertyCode::AspectRatio)
        } else if v == 0xD6F1 {
            Some(SonyDevicePropertyCode::BatteryLevel)
        } else if v == 0xD6E7 {
            Some(SonyDevicePropertyCode::BatteryRemain)
        } else if v == 0xD6E3 {
            Some(SonyDevicePropertyCode::BiaxialAB)
        } else if v == 0xD6EF {
            Some(SonyDevicePropertyCode::BiaxialGM)
        } else if v == 0xD633 {
            Some(SonyDevicePropertyCode::CaptureCount)
        } else if v == 0xD6BA {
            Some(SonyDevicePropertyCode::Caution)
        } else if v == 0xD6F0 {
            Some(SonyDevicePropertyCode::ColorTemperature)
        } else if v == 0xD6B9 {
            Some(SonyDevicePropertyCode::Compression)
        } else if v == 0xD6B1 {
            Some(SonyDevicePropertyCode::DateTime)
        } else if v == 0xD6B0 {
            Some(SonyDevicePropertyCode::DriveMode)
        } else if v == 0xD6C3 {
            Some(SonyDevicePropertyCode::ExposureCompensation)
        } else if v == 0xD6CC {
            Some(SonyDevicePropertyCode::ExposureMode)
        } else if v == 0xD6C5 {
            Some(SonyDevicePropertyCode::FNumber)
        } else if v == 0xD6EC {
            Some(SonyDevicePropertyCode::FocusIndication)
        } else if v == 0xD6A7 {
            Some(SonyDevicePropertyCode::FocusMagnificationLevel)
        } else if v == 0xD6A8 {
            Some(SonyDevicePropertyCode::FocusMagnificationPosition)
        } else if v == 0xD6A6 {
            Some(SonyDevicePropertyCode::FocusMagnificationState)
        } else if v == 0xD6CB {
            Some(SonyDevicePropertyCode::FocusMode)
        } else if v == 0xD6B7 {
            Some(SonyDevicePropertyCode::ImageSize)
        } else if v == 0xD632 {
            Some(SonyDevicePropertyCode::IntervalStillRecordingState)
        } else if v == 0xD631 {
            Some(SonyDevicePropertyCode::IntervalTime)
        } else if v == 0xD6F2 {
            Some(SonyDevicePropertyCode::ISO)
        } else if v == 0xD6A9 {
            Some(SonyDevicePropertyCode::LensStatus)
        } else if v == 0xD624 {
            Some(SonyDevicePropertyCode::LensUpdateState)
        } else if v == 0xD6AA {
            Some(SonyDevicePropertyCode::LiveViewResolution)
        } else if v == 0xD6DE {
            Some(SonyDevicePropertyCode::LiveViewStatus)
        } else if v == 0xD6C0 {
            Some(SonyDevicePropertyCode::LocationInfo)
        } else if v == 0xD6C7 {
            Some(SonyDevicePropertyCode::MediaFormatState)
        } else if v == 0xD6BD {
            Some(SonyDevicePropertyCode::MovieFormat)
        } else if v == 0xD6BC {
            Some(SonyDevicePropertyCode::MovieQuality)
        } else if v == 0xD6CD {
            Some(SonyDevicePropertyCode::MovieRecording)
        } else if v == 0xD6D1 {
            Some(SonyDevicePropertyCode::MovieSteady)
        } else if v == 0xD6AF {
            Some(SonyDevicePropertyCode::NotifyFocus)
        } else if v == 0xD6E2 {
            Some(SonyDevicePropertyCode::OperatingMode)
        } else if v == 0xD6CF {
            Some(SonyDevicePropertyCode::SaveMedia)
        } else if v == 0xD6C6 {
            Some(SonyDevicePropertyCode::ShootingFileInfo)
        } else if v == 0xD6EA {
            Some(SonyDevicePropertyCode::ShutterSpeed)
        } else if v == 0xD6D0 {
            Some(SonyDevicePropertyCode::StillSteadyMode)
        } else if v == 0xD6BB {
            Some(SonyDevicePropertyCode::StorageInfo)
        } else if v == 0xD6B8 {
            Some(SonyDevicePropertyCode::WhiteBalance)
        } else if v == 0xD6DF {
            Some(SonyDevicePropertyCode::WhiteBalanceInit)
        } else if v == 0xD6BF {
            Some(SonyDevicePropertyCode::ZoomInfo)
        } else if v == 0xD63A {
            Some(SonyDevicePropertyCode::ZoomMagnificationInfo)
        } else if v == 0xD6BE {
            Some(SonyDevicePropertyCode::ZoomAbsolutePosition)
        } else if v == 0xD6C9 {
            Some(SonyDevicePropertyCode::Zoom)
        } else {
            None
        }
    }
}

/// Decoding the code of a `SonyDevicePropertyCode` gives the value back, and a code
/// that decodes to a value is that value's code.
pub proof fn lemma_property_code_code_round_trip(m: SonyDevicePropertyCode, v: u16)
    ensures
        SonyDevicePropertyCode::from_code(m.code()) == Some(m),
        SonyDevicePropertyCode::from_code(v) matches Some(n) ==> n.code() == v,
{
}

/// The controls of the camera that the SDIO extension exposes.
#[derive(Clone, Copy, Debug, PartialEq, Eq, Structural, Hash)]
pub enum SonyDeviceControlCode {
    AELock,
    AFLock,
    CameraSettingReset,
    ExposureCompensation,
    FNumber,
    FocusFarForContinuous,
    FocusFarForOneShot,
    FocusMagnification,
    FocusNearForContinuous,
    FocusNearForOneShot,
    IntervalStillRecording,
    ISO,
    MediaFormat,
    MovieRecording,
    PowerOff,
    RequestForUpdate,
    RequestForUpdateForLens,
    S1Button,
    S2Button,
    ShutterSpeed,
    SystemInit,
    ZoomControlAbsolute,
    ZoomControlTele,
    ZoomControlTeleOneShot,
    ZoomControlWide,
    ZoomControlWideOneShot,
}

impl SonyDeviceControlCode {
    /// The numeric code of the value, as the camera encodes it.
    pub open spec fn code(self) -> u16 {
        match self {
            SonyDeviceControlCode::AELock => 0xD61E,
            SonyDeviceControlCode::AFLock => 0xD63B,
            SonyDeviceControlCode::CameraSettingReset => 0xD6D9,
            SonyDeviceControlCode::ExposureCompensation => 0xD6C3,
            SonyDeviceControlCode::FNumber => 0xD6C5,
            SonyDeviceControlCode::FocusFarForContinuous => 0xD6A4,
            SonyDeviceControlCode::FocusFarForOneShot => 0xD6A2,
            SonyDeviceControlCode::FocusMagnification => 0xD6A5,
            SonyDeviceControlCode::FocusNearForContinuous => 0xD6A3,
            SonyDeviceControlCode::FocusNearForOneShot => 0xD6A1,
            SonyDeviceControlCode::IntervalStillRecording => 0xD630,
            SonyDeviceControlCode::ISO => 0xD6F2,
            SonyDeviceControlCode::MediaFormat => 0xD61C,
            SonyDeviceControlCode::MovieRecording => 0xD60F,
            SonyDeviceControlCode::PowerOff => 0xD637,
            SonyDeviceControlCode::RequestForUpdate => 0xD612,
            SonyDeviceControlCode::RequestForUpdateForLens => 0xD625,
            SonyDeviceControlCode::S1Button => 0xD61D,
            SonyDeviceControlCode::S2Button => 0xD617,
            SonyDeviceControlCode::ShutterSpeed => 0xD6EA,
            SonyDeviceControlCode::SystemInit => 0xD6DA,
            SonyDeviceControlCode::ZoomControlAbsolute => 0xD60E,
            SonyDeviceControlCode::ZoomControlTele => 0xD63C,
            SonyDeviceControlCode::ZoomControlTeleOneShot => 0xD614,
            SonyDeviceControlCode::ZoomControlWide => 0xD63E,
            SonyDeviceControlCode::ZoomControlWideOneShot => 0xD613,
        }
    }

    /// The value whose code is `v`, if there is one.
    pub open spec fn from_code(v: u16) -> Option<SonyDeviceControlCode> {
        if v == 0xD61E {
            Some(SonyDeviceControlCode::AELock)
        } else if v == 0xD63B {
            Some(SonyDeviceControlCode::AFLock)
        } else if v == 0xD6D9 {
            Some(SonyDeviceControlCode::CameraSettingReset)
        } else if v == 0xD6C3 {
            Some(SonyDeviceControlCode::ExposureCompensation)
        } else if v == 0xD6C5 {
            Some(SonyDeviceControlCode::FNumber)
        } else if v == 0xD6A4 {
            Some(SonyDeviceControlCode::FocusFarForContinuous)
        } else if v == 0xD6A2 {
            Some(SonyDeviceControlCode::FocusFarForOneShot)
        } else if v == 0xD6A5 {
            Some(SonyDeviceControlCode::FocusMagnification)
        } else if v == 0xD6A3 {
            Some(SonyDeviceControlCode::FocusNearForContinuous)
        } else if v == 0xD6A1 {
            Some(SonyDeviceControlCode::FocusNearForOneShot)
        } else if v == 0xD630 {
            Some(SonyDeviceControlCode::IntervalStillRecording)
        } else if v == 0xD6F2 {
            Some(SonyDeviceControlCode::ISO)
        } else if v == 0xD61C {
            Some(SonyDeviceControlCode::MediaFormat)
        } else if v == 0xD60F {
            Some(SonyDeviceControlCode::MovieRecording)
        } else if v == 0xD637 {
            Some(SonyDeviceControlCode::PowerOff)
        } else if v == 0xD612 {
            Some(SonyDeviceControlCode::RequestForUpdate)
        } else if v == 0xD625 {
            Some(SonyDeviceControlCode::RequestForUpdateForLens)
        } else if v == 0xD61D {
            Some(SonyDeviceControlCode::S1Button)
        } else if v == 0xD617 {
            Some(SonyDeviceControlCode::S2Button)
        } else if v == 0xD6EA {
            Some(SonyDeviceControlCode::ShutterSpeed)
        } else if v == 0xD6DA {
            Some(SonyDeviceControlCode::SystemInit)
        } else if v == 0xD60E {
            Some(SonyDeviceControlCode::ZoomControlAbsolute)
        } else if v == 0xD63C {
            Some(SonyDeviceControlCode::ZoomControlTele)
        } else if v == 0xD614 {
            Some(SonyDeviceControlCode::ZoomControlTeleOneShot)
        } else if v == 0xD63E {
            Some(SonyDeviceControlCode::ZoomControlWide)
        } else if v == 0xD613 {
            Some(SonyDeviceControlCode::ZoomControlWideOneShot)
        } else {
            None
        }
    }

    /// The numeric code of this value.
    pub fn to_u16(&self) -> (r: u16)
        ensures
            r == self.code(),
    {
        match self {
            SonyDeviceControlCode::AELock => 0xD61E,
            SonyDeviceControlCode::AFLock => 0xD63B,
            SonyDeviceControlCode::CameraSettingReset => 0xD6D9,
            SonyDeviceControlCode::ExposureCompensation => 0xD6C3,
            SonyDeviceControlCode::FNumber => 0xD6C5,
            SonyDeviceControlCode::FocusFarForContinuous => 0xD6A4,
            SonyDeviceControlCode::FocusFarForOneShot => 0xD6A2,
            SonyDeviceControlCode::FocusMagnification => 0xD6A5,
            SonyDeviceControlCode::FocusNearForContinuous => 0xD6A3,
            SonyDeviceControlCode::FocusNearForOneShot => 0xD6A1,
            SonyDeviceControlCode::IntervalStillRecording => 0xD630,
            SonyDeviceControlCode::ISO => 0xD6F2,
            SonyDeviceControlCode::MediaFormat => 0xD61C,
            SonyDeviceControlCode::MovieRecording => 0xD60F,
            SonyDeviceControlCode::PowerOff => 0xD637,
            SonyDeviceControlCode::RequestForUpdate => 0xD612,
            SonyDeviceControlCode::RequestForUpdateForLens => 0xD625,
            SonyDeviceControlCode::S1Button => 0xD61D,
            SonyDeviceControlCode::S2Button => 0xD617,
            SonyDeviceControlCode::ShutterSpeed => 0xD6EA,
            SonyDeviceControlCode::SystemInit => 0xD6DA,
            SonyDeviceControlCode::ZoomControlAbsolute => 0xD60E,
            SonyDeviceControlCode::ZoomControlTele => 0xD63C,
            SonyDeviceControlCode::ZoomControlTeleOneShot => 0xD614,
            SonyDeviceControlCode::ZoomControlWide => 0xD63E,
            SonyDeviceControlCode::ZoomControlWideOneShot => 0xD613,
        }
    }

    /// Decodes a numeric code; `None` for a code that names no value.
    pub fn from_u16(v: u16) -> (r: Option<SonyDeviceControlCode>)
        ensures
            r == SonyDeviceControlCode::from_code(v),
    {
        if v == 0xD61E {
            Some(SonyDeviceControlCode::AELock)
        } else if v == 0xD63B {
            Some(SonyDeviceControlCode::AFLock)
        } else if v == 0xD6D9 {
            Some(SonyDeviceControlCode::CameraSettingReset)
        } else if v == 0xD6C3 {
            Some(SonyDeviceControlCode::ExposureCompensation)
        } else if v == 0xD6C5 {
            Some(SonyDeviceControlCode::FNumber)
        } else if v == 0xD6A4 {
            Some(SonyDeviceControlCode::FocusFarForContinuous)
        } else if v == 0xD6A2 {
            Some(SonyDeviceControlCode::FocusFarForOneShot)
        } else if v == 0xD6A5 {
            Some(SonyDeviceControlCode::FocusMagnification)
        } else if v == 0xD6A3 {
            Some(SonyDeviceControlCode::FocusNearForContinuous)
        } else if v == 0xD6A1 {
            Some(SonyDeviceControlCode::FocusNearForOneShot)
        } else if v == 0xD630 {
            Some(SonyDeviceControlCode::IntervalStillRecording)
        } else if v == 0xD6F2 {
            Some(SonyDeviceControlCode::ISO)
        } else if v == 0xD61C {
            Some(SonyDeviceControlCode::MediaFormat)
        } else if v == 0xD60F {
            Some(SonyDeviceControlCode::MovieRecording)
        } else if v == 0xD637 {
            Some(SonyDeviceControlCode::PowerOff)
        } else if v == 0xD612 {
            Some(SonyDeviceControlCode::RequestForUpdate)
        } else if v == 0xD625 {
            Some(SonyDeviceControlCode::RequestForUpdateForLens)
        } else if v == 0xD61D {
            Some(SonyDeviceControlCode::S1Button)
        } else if v == 0xD617 {
            Some(SonyDeviceControlCode::S2Button)
        } else if v == 0xD6EA {
            Some(SonyDeviceControlCode::ShutterSpeed)
        } else if v == 0xD6DA {
            Some(SonyDeviceControlCode::SystemInit)
        } else if v == 0xD60E {
            Some(SonyDeviceControlCode::ZoomControlAbsolute)
        } else if v == 0xD63C {
            Some(SonyDeviceControlCode::ZoomControlTele)
        } else if v == 0xD614 {
            Some(SonyDeviceControlCode::ZoomControlTeleOneShot)
        } else if v == 0xD63E {
            Some(SonyDeviceControlCode::ZoomControlWide)
        } else if v == 0xD613 {
            Some(SonyDeviceControlCode::ZoomControlWideOneShot)
        } else {
            None
        }
    }
}

/// Decoding the code of a `SonyDeviceControlCode` gives the value back, and a code
/// that decodes to a value is that value's code.
pub proof fn lemma_control_code_code_round_trip(m: SonyDeviceControlCode, v: u16)
    ensures
        SonyDeviceControlCode::from_code(m.code()) == Some(m),
        SonyDeviceControlCode::from_code(v) matches Some(n) ==> n.code() == v,
{
}
/// The property codes as the client names them.
pub type CameraPropertyCode = SonyDevicePropertyCode;

/// The control codes as the client names them.
pub type CameraControlCode = SonyDeviceControlCode;

/// The unsigned little-endian 16-bit integer at `i`.
pub open spec fn le_u16(s: Seq<u8>, i: int) -> u16 {
    (s[i] as int + s[i + 1] as int * 256) as u16
}

/// The unsigned little-endian 32-bit integer at `i`.
pub open spec fn le_u32(s: Seq<u8>, i: int) -> u32 {
    (s[i] as int + s[i + 1] as int * 256 + s[i + 2] as int * 65536 + s[i + 3] as int
        * 16777216) as u32
}

/// A PTP array of 16-bit integers at `start`: a 32-bit element count, then the
/// elements. Gives the elements and the position after the array, or `None`
/// when the bytes end too early.
pub open spec fn spec_u16_array(s: Seq<u8>, start: int) -> Option<(Seq<u16>, int)> {
    if start + 4 > s.len() {
        None
    } else {
        let n = le_u32(s, start) as int;
        let end = start + 4 + 2 * n;
        if end > s.len() {
            None
        } else {
            Some((Seq::new(n as nat, |k: int| le_u16(s, start + 4 + 2 * k)), end))
        }
    }
}

/// The fields of the `SDIO_GetExtDeviceInfo` reply: the extension version,
/// then the array of property codes, then the array of control codes. Bytes
/// after the second array are not read.
pub open spec fn spec_ext_device_info(s: Seq<u8>) -> Option<(u16, Seq<u16>, Seq<u16>)> {
    if s.len() < 2 {
        None
    } else {
        match spec_u16_array(s, 2) {
            None => None,
            Some((props, after_props)) => match spec_u16_array(s, after_props) {
                None => None,
                Some((controls, _)) => Some((le_u16(s, 0), props, controls)),
            },
        }
    }
}

/// The property codes among `raw` that name a known property.
pub open spec fn known_properties(raw: Seq<u16>) -> Set<SonyDevicePropertyCode> {
    Set::new(
        |c: SonyDevicePropertyCode|
            exists|i: int| 0 <= i < raw.len() && SonyDevicePropertyCode::from_code(raw[i]) == Some(c),
    )
}

/// The control codes among `raw` that name a known control.
pub open spec fn known_controls(raw: Seq<u16>) -> Set<SonyDeviceControlCode> {
    Set::new(
        |c: SonyDeviceControlCode|
            exists|i: int| 0 <= i < raw.len() && SonyDeviceControlCode::from_code(raw[i]) == Some(c),
    )
}

/// The reply to `SDIO_GetExtDeviceInfo`: the extension version and the known
/// properties and controls that the camera supports, each listed once.
#[derive(Debug)]
pub struct ExtDeviceInfo {
    pub version: u16,
    pub supported_properties: Vec<SonyDevicePropertyCode>,
    pub supported_controls: Vec<SonyDeviceControlCode>,
}

/// The reply to `SDIO_GetExtDeviceInfo` ended before its fields did.
#[derive(Clone, Copy, Debug, PartialEq, Eq, Structural)]
pub enum ExtDeviceInfoError {
    Truncated,
}

fn read_u16_le(data: &[u8], pos: usize) -> (r: u16)
    requires
        pos + 2 <= data@.len(),
    ensures
        r == le_u16(data@, pos as int),
{
    let lo = data[pos] as u16;
    let hi = data[pos + 1] as u16;
    lo + hi * 256
}

fn read_u32_le(data: &[u8], pos: usize) -> (r: u32)
    requires
        pos + 4 <= data@.len(),
    ensures
        r == le_u32(data@, pos as int),
{
    let b0 = data[pos] as u32;
    let b1 = data[pos + 1] as u32;
    let b2 = data[pos + 2] as u32;
    let b3 = data[pos + 3] as u32;
    b0 + b1 * 256 + b2 * 65536 + b3 * 16777216
}

/// Reads a PTP array of 16-bit integers at `pos`.
fn read_u16_array(data: &[u8], pos: usize) -> (r: Option<(Vec<u16>, usize)>)
    requires
        pos <= data@.len(),
    ensures
        match (r, spec_u16_array(data@, pos as int)) {
            (None, None) => true,
            (Some((v, end)), Some((sv, send))) => v@ == sv && end == send,
            _ => false,
        },
{
    let len = data.len();
    if len - pos < 4 {
        return None;
    }
    let n = read_u32_le(data, pos);
    let avail = (len - pos - 4) / 2;
    if n as usize > avail {
        return None;
    }
    let n = n as usize;
    let mut out: Vec<u16> = Vec::new();
    let mut k: usize = 0;
    while k < n
        invariant
            n <= avail,
            avail == (len - pos - 4) / 2,
            len == data@.len(),
            pos + 4 <= len,
            k <= n,
            out@ == Seq::new(k as nat, |j: int| le_u16(data@, pos + 4 + 2 * j)),
        decreases n - k,
    {
        let x = read_u16_le(data, pos + 4 + 2 * k);
        out.push(x);
        k = k + 1;
        assert(out@ =~= Seq::new(k as nat, |j: int| le_u16(data@, pos + 4 + 2 * j)));
    }
    Some((out, pos + 4 + 2 * n))
}

/// The known properties among `raw`, each once.
fn filter_properties(raw: &Vec<u16>) -> (r: Vec<SonyDevicePropertyCode>)
    ensures
        r@.to_set() == known_properties(raw@),
        r@.no_duplicates(),
{
    let mut out: Vec<SonyDevicePropertyCode> = Vec::new();
    let mut i: usize = 0;
    while i < raw.len()
        invariant
            i <= raw.len(),
            out@.no_duplicates(),
            forall|c: SonyDevicePropertyCode|
                out@.contains(c) <==> exists|j: int|
                    0 <= j < i && SonyDevicePropertyCode::from_code(raw@[j]) == Some(c),
        decreases raw.len() - i,
    {
        let ghost prev = out@;
        match SonyDevicePropertyCode::from_u16(raw[i]) {
            Some(c) => {
                let mut present = false;
                let mut k: usize = 0;
                while k < out.len()
                    invariant
                        k <= out.len(),
                        present <==> exists|m: int| 0 <= m < k && out@[m] == c,
                    decreases out.len() - k,
                {
                    if out[k] == c {
                        present = true;
                    }
                    k = k + 1;
                }
                if !present {
                    proof {
                        lemma_push_no_duplicates(prev, c);
                    }
                    out.push(c);
                }
                assert forall|d: SonyDevicePropertyCode|
                    out@.contains(d) <==> exists|j: int|
                        0 <= j < i + 1 && SonyDevicePropertyCode::from_code(raw@[j]) == Some(d) by {
                    lemma_push_contains(prev, c, d);
                    if exists|j: int| 0 <= j < i + 1 && SonyDevicePropertyCode::from_code(raw@[j]) == Some(d) {
                        let j = choose|j: int| 0 <= j < i + 1 && SonyDevicePropertyCode::from_code(raw@[j]) == Some(d);
                        if j < i {
                            assert(prev.contains(d));
                        }
                    }
                    if prev.contains(d) {
                        let j = choose|j: int| 0 <= j < i && SonyDevicePropertyCode::from_code(raw@[j]) == Some(d);
                        assert(0 <= j < i + 1);
                    }
                }
            },
            None => {
                assert forall|d: SonyDevicePropertyCode|
                    out@.contains(d) <==> exists|j: int|
                        0 <= j < i + 1 && SonyDevicePropertyCode::from_code(raw@[j]) == Some(d) by {
                    if exists|j: int| 0 <= j < i + 1 && SonyDevicePropertyCode::from_code(raw@[j]) == Some(d) {
                        let j = choose|j: int| 0 <= j < i + 1 && SonyDevicePropertyCode::from_code(raw@[j]) == Some(d);
                        assert(j < i);
                    }
                    if out@.contains(d) {
                        let j = choose|j: int| 0 <= j < i && SonyDevicePropertyCode::from_code(raw@[j]) == Some(d);
                        assert(0 <= j < i + 1);
                    }
                }
            },
        }
        i = i + 1;
    }
    assert(out@.to_set() =~= known_properties(raw@));
    out
}

/// The known controls among `raw`, each once.
fn filter_controls(raw: &Vec<u16>) -> (r: Vec<SonyDeviceControlCode>)
    ensures
        r@.to_set() == known_controls(raw@),
        r@.no_duplicates(),
{
    let mut out: Vec<SonyDeviceControlCode> = Vec::new();
    let mut i: usize = 0;
    while i < raw.len()
        invariant
            i <= raw.len(),
            out@.no_duplicates(),
            forall|c: SonyDeviceControlCode|
                out@.contains(c) <==> exists|j: int|
                    0 <= j < i && SonyDeviceControlCode::from_code(raw@[j]) == Some(c),
        decreases raw.len() - i,
    {
        let ghost prev = out@;
        match SonyDeviceControlCode::from_u16(raw[i]) {
            Some(c) => {
                let mut present = false;
                let mut k: usize = 0;
                while k < out.len()
                    invariant
                        k <= out.len(),
                        present <==> exists|m: int| 0 <= m < k && out@[m] == c,
                    decreases out.len() - k,
                {
                    if out[k] == c {
                        present = true;
                    }
                    k = k + 1;
                }
                if !present {
                    proof {
                        lemma_push_no_duplicates(prev, c);
                    }
                    out.push(c);
                }
                assert forall|d: SonyDeviceControlCode|
                    out@.contains(d) <==> exists|j: int|
                        0 <= j < i + 1 && SonyDeviceControlCode::from_code(raw@[j]) == Some(d) by {
                    lemma_push_contains(prev, c, d);
                    if exists|j: int| 0 <= j < i + 1 && SonyDeviceControlCode::from_code(raw@[j]) == Some(d) {
                        let j = choose|j: int| 0 <= j < i + 1 && SonyDeviceControlCode::from_code(raw@[j]) == Some(d);
                        if j < i {
                            assert(prev.contains(d));
                        }
                    }
                    if prev.contains(d) {
                        let j = choose|j: int| 0 <= j < i && SonyDeviceControlCode::from_code(raw@[j]) == Some(d);
                        assert(0 <= j < i + 1);
                    }
                }
            },
            None => {
                assert forall|d: SonyDeviceControlCode|
                    out@.contains(d) <==> exists|j: int|
                        0 <= j < i + 1 && SonyDeviceControlCode::from_code(raw@[j]) == Some(d) by {
                    if exists|j: int| 0 <= j < i + 1 && SonyDeviceControlCode::from_code(raw@[j]) == Some(d) {
                        let j = choose|j: int| 0 <= j < i + 1 && SonyDeviceControlCode::from_code(raw@[j]) == Some(d);
                        assert(j < i);
                    }
                    if out@.contains(d) {
                        let j = choose|j: int| 0 <= j < i && SonyDeviceControlCode::from_code(raw@[j]) == Some(d);
                        assert(0 <= j < i + 1);
                    }
                }
            },
        }
        i = i + 1;
    }
    assert(out@.to_set() =~= known_controls(raw@));
    out
}

/// Parses the reply to `SDIO_GetExtDeviceInfo`: the extension version, then
/// the supported property codes, then the supported control codes, each an
/// array as PTP encodes it. Codes that name no known property or control are
/// left out.
pub fn parse_ext_device_info(data: &[u8]) -> (r: Result<ExtDeviceInfo, ExtDeviceInfoError>)
    ensures
        match (r, spec_ext_device_info(data@)) {
            (Err(_), None) => true,
            (Ok(info), Some((version, props, controls))) => {
                &&& info.version == version
                &&& info.supported_properties@.to_set() == known_properties(props)
                &&& info.supported_properties@.no_duplicates()
                &&& info.supported_controls@.to_set() == known_controls(controls)
                &&& info.supported_controls@.no_duplicates()
            },
            _ => false,
        },
{
    if data.len() < 2 {
        return Err(ExtDeviceInfoError::Truncated);
    }
    let version = read_u16_le(data, 0);
    let (props, after_props) = match read_u16_array(data, 2) {
        Some(x) => x,
        None => return Err(ExtDeviceInfoError::Truncated),
    };
    let (controls, _) = match read_u16_array(data, after_props) {
        Some(x) => x,
        None => return Err(ExtDeviceInfoError::Truncated),
    };
    Ok(
        ExtDeviceInfo {
            version,
            supported_properties: filter_properties(&props),
            supported_controls: filter_controls(&controls),
        },
    )
}

/// The operation codes of the Sony SDIO commands, command by command; no
/// other code names one.
pub proof fn lemma_command_code_table()
    ensures
        SonyCommandCode::SdioConnect.code() == 0x96FEu16,
        SonyCommandCode::SdioGetExtDeviceInfo.code() == 0x96FDu16,
        SonyCommandCode::SdioSetExtDevicePropValue.code() == 0x96FAu16,
        SonyCommandCode::SdioControlDevice.code() == 0x96F8u16,
        SonyCommandCode::SdioGetAllExtDevicePropInfo.code() == 0x96F6u16,
        SonyCommandCode::SdioSendUpdateFile.code() == 0x96F5u16,
        SonyCommandCode::SdioGetExtLensInfo.code() == 0x96F4u16,
        SonyCommandCode::SdioExtDeviceDeleteObject.code() == 0x96F1u16,
        SonyCommandCode::from_code(0x96FEu16) == Some(SonyCommandCode::SdioConnect),
        SonyCommandCode::from_code(0x96FDu16) == Some(SonyCommandCode::SdioGetExtDeviceInfo),
        SonyCommandCode::from_code(0x96FAu16) == Some(SonyCommandCode::SdioSetExtDevicePropValue),
        SonyCommandCode::from_code(0x96F8u16) == Some(SonyCommandCode::SdioControlDevice),
        SonyCommandCode::from_code(0x96F6u16) == Some(SonyCommandCode::SdioGetAllExtDevicePropInfo),
        SonyCommandCode::from_code(0x96F5u16) == Some(SonyCommandCode::SdioSendUpdateFile),
        SonyCommandCode::from_code(0x96F4u16) == Some(SonyCommandCode::SdioGetExtLensInfo),
        SonyCommandCode::from_code(0x96F1u16) == Some(SonyCommandCode::SdioExtDeviceDeleteObject),
        forall|v: u16| #[trigger] SonyCommandCode::from_code(v) is Some ==> (v == 0x96FEu16 || v == 0x96FDu16 || v == 0x96FAu16 || v == 0x96F8u16 || v == 0x96F6u16 || v == 0x96F5u16 || v == 0x96F4u16 || v == 0x96F1u16),
{
}

/// The Sony device property codes, property by property (for example
/// `Caution` 0xD6BA, `StorageInfo` 0xD6BB, `SaveMedia` 0xD6CF); no other code
/// names a property.
pub proof fn lemma_property_code_table()
    ensures
        SonyDevicePropertyCode::AELock.code() == 0xD6E8u16,
        SonyDevicePropertyCode::AspectRatio.code() == 0xD6B3u16,
        SonyDevicePropertyCode::BatteryLevel.code() == 0xD6F1u16,
        SonyDevicePropertyCode::BatteryRemain.code() == 0xD6E7u16,
        SonyDevicePropertyCode::BiaxialAB.code() == 0xD6E3u16,
        SonyDevicePropertyCode::BiaxialGM.code() == 0xD6EFu16,
        SonyDevicePropertyCode::CaptureCount.code() == 0xD633u16,
        SonyDevicePropertyCode::Caution.code() == 0xD6BAu16,
        SonyDevicePropertyCode::ColorTemperature.code() == 0xD6F0u16,
        SonyDevicePropertyCode::Compression.code() == 0xD6B9u16,
        SonyDevicePropertyCode::DateTime.code() == 0xD6B1u16,
        SonyDevicePropertyCode::DriveMode.code() == 0xD6B0u16,
        SonyDevicePropertyCode::ExposureCompensation.code() == 0xD6C3u16,
        SonyDevicePropertyCode::ExposureMode.code() == 0xD6CCu16,
        SonyDevicePropertyCode::FNumber.code() == 0xD6C5u16,
        SonyDevicePropertyCode::FocusIndication.code() == 0xD6ECu16,
        SonyDevicePropertyCode::FocusMagnificationLevel.code() == 0xD6A7u16,
        SonyDevicePropertyCode::FocusMagnificationPosition.code() == 0xD6A8u16,
        SonyDevicePropertyCode::FocusMagnificationState.code() == 0xD6A6u16,
        SonyDevicePropertyCode::FocusMode.code() == 0xD6CBu16,
        SonyDevicePropertyCode::ImageSize.code() == 0xD6B7u16,
        SonyDevicePropertyCode::IntervalStillRecordingState.code() == 0xD632u16,
        SonyDevicePropertyCode::IntervalTime.code() == 0xD631u16,
        SonyDevicePropertyCode::ISO.code() == 0xD6F2u16,
        SonyDevicePropertyCode::LensStatus.code() == 0xD6A9u16,
        SonyDevicePropertyCode::LensUpdateState.code() == 0xD624u16,
        SonyDevicePropertyCode::LiveViewResolution.code() == 0xD6AAu16,
        SonyDevicePropertyCode::LiveViewStatus.code() == 0xD6DEu16,
        SonyDevicePropertyCode::LocationInfo.code() == 0xD6C0u16,
        SonyDevicePropertyCode::MediaFormatState.code() == 0xD6C7u16,
        SonyDevicePropertyCode::MovieFormat.code() == 0xD6BDu16,
        SonyDevicePropertyCode::MovieQuality.code() == 0xD6BCu16,
        SonyDevicePropertyCode::MovieRecording.code() == 0xD6CDu16,
        SonyDevicePropertyCode::MovieSteady.code() == 0xD6D1u16,
        SonyDevicePropertyCode::NotifyFocus.code() == 0xD6AFu16,
        SonyDevicePropertyCode::OperatingMode.code() == 0xD6E2u16,
        SonyDevicePropertyCode::SaveMedia.code() == 0xD6CFu16,
        SonyDevicePropertyCode::ShootingFileInfo.code() == 0xD6C6u16,
        SonyDevicePropertyCode::ShutterSpeed.code() == 0xD6EAu16,
        SonyDevicePropertyCode::StillSteadyMode.code() == 0xD6D0u16,
        SonyDevicePropertyCode::StorageInfo.code() == 0xD6BBu16,
        SonyDevicePropertyCode::WhiteBalance.code() == 0xD6B8u16,
        SonyDevicePropertyCode::WhiteBalanceInit.code() == 0xD6DFu16,
        SonyDevicePropertyCode::ZoomInfo.code() == 0xD6BFu16,
        SonyDevicePropertyCode::ZoomMagnificationInfo.code() == 0xD63Au16,
        SonyDevicePropertyCode::ZoomAbsolutePosition.code() == 0xD6BEu16,
        SonyDevicePropertyCode::Zoom.code() == 0xD6C9u16,
        SonyDevicePropertyCode::from_code(0xD6E8u16) == Some(SonyDevicePropertyCode::AELock),
        SonyDevicePropertyCode::from_code(0xD6B3u16) == Some(SonyDevicePropertyCode::AspectRatio),
        SonyDevicePropertyCode::from_code(0xD6F1u16) == Some(SonyDevicePropertyCode::BatteryLevel),
        SonyDevicePropertyCode::from_code(0xD6E7u16) == Some(SonyDevicePropertyCode::BatteryRemain),
        SonyDevicePropertyCode::from_code(0xD6E3u16) == Some(SonyDevicePropertyCode::BiaxialAB),
        SonyDevicePropertyCode::from_code(0xD6EFu16) == Some(SonyDevicePropertyCode::BiaxialGM),
        SonyDevicePropertyCode::from_code(0xD633u16) == Some(SonyDevicePropertyCode::CaptureCount),
        SonyDevicePropertyCode::from_code(0xD6BAu16) == Some(SonyDevicePropertyCode::Caution),
        SonyDevicePropertyCode::from_code(0xD6F0u16) == Some(SonyDevicePropertyCode::ColorTemperature),
        SonyDevicePropertyCode::from_code(0xD6B9u16) == Some(SonyDevicePropertyCode::Compression),
        SonyDevicePropertyCode::from_code(0xD6B1u16) == Some(SonyDevicePropertyCode::DateTime),
        SonyDevicePropertyCode::from_code(0xD6B0u16) == Some(SonyDevicePropertyCode::DriveMode),
        SonyDevicePropertyCode::from_code(0xD6C3u16) == Some(SonyDevicePropertyCode::ExposureCompensation),
        SonyDevicePropertyCode::from_code(0xD6CCu16) == Some(SonyDevicePropertyCode::ExposureMode),
        SonyDevicePropertyCode::from_code(0xD6C5u16) == Some(SonyDevicePropertyCode::FNumber),
        SonyDevicePropertyCode::from_code(0xD6ECu16) == Some(SonyDevicePropertyCode::FocusIndication),
        SonyDevicePropertyCode::from_code(0xD6A7u16) == Some(SonyDevicePropertyCode::FocusMagnificationLevel),
        SonyDevicePropertyCode::from_code(0xD6A8u16) == Some(SonyDevicePropertyCode::FocusMagnificationPosition),
        SonyDevicePropertyCode::from_code(0xD6A6u16) == Some(SonyDevicePropertyCode::FocusMagnificationState),
        SonyDevicePropertyCode::from_code(0xD6CBu16) == Some(SonyDevicePropertyCode::FocusMode),
        SonyDevicePropertyCode::from_code(0xD6B7u16) == Some(SonyDevicePropertyCode::ImageSize),
        SonyDevicePropertyCode::from_code(0xD632u16) == Some(SonyDevicePropertyCode::IntervalStillRecordingState),
        SonyDevicePropertyCode::from_code(0xD631u16) == Some(SonyDevicePropertyCode::IntervalTime),
        SonyDevicePropertyCode::from_code(0xD6F2u16) == Some(SonyDevicePropertyCode::ISO),
        SonyDevicePropertyCode::from_code(0xD6A9u16) == Some(SonyDevicePropertyCode::LensStatus),
        SonyDevicePropertyCode::from_code(0xD624u16) == Some(SonyDevicePropertyCode::LensUpdateState),
        SonyDevicePropertyCode::from_code(0xD6AAu16) == Some(SonyDevicePropertyCode::LiveViewResolution),
        SonyDevicePropertyCode::from_code(0xD6DEu16) == Some(SonyDevicePropertyCode::LiveViewStatus),
        SonyDevicePropertyCode::from_code(0xD6C0u16) == Some(SonyDevicePropertyCode::LocationInfo),
        SonyDevicePropertyCode::from_code(0xD6C7u16) == Some(SonyDevicePropertyCode::MediaFormatState),
        SonyDevicePropertyCode::from_code(0xD6BDu16) == Some(SonyDevicePropertyCode::MovieFormat),
        SonyDevicePropertyCode::from_code(0xD6BCu16) == Some(SonyDevicePropertyCode::MovieQuality),
        SonyDevicePropertyCode::from_code(0xD6CDu16) == Some(SonyDevicePropertyCode::MovieRecording),
        SonyDevicePropertyCode::from_code(0xD6D1u16) == Some(SonyDevicePropertyCode::MovieSteady),
        SonyDevicePropertyCode::from_code(0xD6AFu16) == Some(SonyDevicePropertyCode::NotifyFocus),
        SonyDevicePropertyCode::from_code(0xD6E2u16) == Some(SonyDevicePropertyCode::OperatingMode),
        SonyDevicePropertyCode::from_code(0xD6CFu16) == Some(SonyDevicePropertyCode::SaveMedia),
        SonyDevicePropertyCode::from_code(0xD6C6u16) == Some(SonyDevicePropertyCode::ShootingFileInfo),
        SonyDevicePropertyCode::from_code(0xD6EAu16) == Some(SonyDevicePropertyCode::ShutterSpeed),
        SonyDevicePropertyCode::from_code(0xD6D0u16) == Some(SonyDevicePropertyCode::StillSteadyMode),
        SonyDevicePropertyCode::from_code(0xD6BBu16) == Some(SonyDevicePropertyCode::StorageInfo),
        SonyDevicePropertyCode::from_code(0xD6B8u16) == Some(SonyDevicePropertyCode::WhiteBalance),
        SonyDevicePropertyCode::from_code(0xD6DFu16) == Some(SonyDevicePropertyCode::WhiteBalanceInit),
        SonyDevicePropertyCode::from_code(0xD6BFu16) == Some(SonyDevicePropertyCode::ZoomInfo),
        SonyDevicePropertyCode::from_code(0xD63Au16) == Some(SonyDevicePropertyCode::ZoomMagnificationInfo),
        SonyDevicePropertyCode::from_code(0xD6BEu16) == Some(SonyDevicePropertyCode::ZoomAbsolutePosition),
        SonyDevicePropertyCode::from_code(0xD6C9u16) == Some(SonyDevicePropertyCode::Zoom),
        forall|v: u16| #[trigger] SonyDevicePropertyCode::from_code(v) is Some ==> (v == 0xD6E8u16 || v == 0xD6B3u16 || v == 0xD6F1u16 || v == 0xD6E7u16 || v == 0xD6E3u16 || v == 0xD6EFu16 || v == 0xD633u16 || v == 0xD6BAu16 || v == 0xD6F0u16 || v == 0xD6B9u16 || v == 0xD6B1u16 || v == 0xD6B0u16 || v == 0xD6C3u16 || v == 0xD6CCu16 || v == 0xD6C5u16 || v == 0xD6ECu16 || v == 0xD6A7u16 || v == 0xD6A8u16 || v == 0xD6A6u16 || v == 0xD6CBu16 || v == 0xD6B7u16 || v == 0xD632u16 || v == 0xD631u16 || v == 0xD6F2u16 || v == 0xD6A9u16 || v == 0xD624u16 || v == 0xD6AAu16 || v == 0xD6DEu16 || v == 0xD6C0u16 || v == 0xD6C7u16 || v == 0xD6BDu16 || v == 0xD6BCu16 || v == 0xD6CDu16 || v == 0xD6D1u16 || v == 0xD6AFu16 || v == 0xD6E2u16 || v == 0xD6CFu16 || v == 0xD6C6u16 || v == 0xD6EAu16 || v == 0xD6D0u16 || v == 0xD6BBu16 || v == 0xD6B8u16 || v == 0xD6DFu16 || v == 0xD6BFu16 || v == 0xD63Au16 || v == 0xD6BEu16 || v == 0xD6C9u16),
{
}

/// The Sony device control codes, control by control (for example
/// `S1Button` 0xD61D, `S2Button` 0xD617); no other code names a control.
pub proof fn lemma_control_code_table()
    ensures
        SonyDeviceControlCode::AELock.code() == 0xD61Eu16,
        SonyDeviceControlCode::AFLock.code() == 0xD63Bu16,
        SonyDeviceControlCode::CameraSettingReset.code() == 0xD6D9u16,
        SonyDeviceControlCode::ExposureCompensation.code() == 0xD6C3u16,
        SonyDeviceControlCode::FNumber.code() == 0xD6C5u16,
        SonyDeviceControlCode::FocusFarForContinuous.code() == 0xD6A4u16,
        SonyDeviceControlCode::FocusFarForOneShot.code() == 0xD6A2u16,
        SonyDeviceControlCode::FocusMagnification.code() == 0xD6A5u16,
        SonyDeviceControlCode::FocusNearForContinuous.code() == 0xD6A3u16,
        SonyDeviceControlCode::FocusNearForOneShot.code() == 0xD6A1u16,
        SonyDeviceControlCode::IntervalStillRecording.code() == 0xD630u16,
        SonyDeviceControlCode::ISO.code() == 0xD6F2u16,
        SonyDeviceControlCode::MediaFormat.code() == 0xD61Cu16,
        SonyDeviceControlCode::MovieRecording.code() == 0xD60Fu16,
        SonyDeviceControlCode::PowerOff.code() == 0xD637u16,
        SonyDeviceControlCode::RequestForUpdate.code() == 0xD612u16,
        SonyDeviceControlCode::RequestForUpdateForLens.code() == 0xD625u16,
        SonyDeviceControlCode::S1Button.code() == 0xD61Du16,
        SonyDeviceControlCode::S2Button.code() == 0xD617u16,
        SonyDeviceControlCode::ShutterSpeed.code() == 0xD6EAu16,
        SonyDeviceControlCode::SystemInit.code() == 0xD6DAu16,
        SonyDeviceControlCode::ZoomControlAbsolute.code() == 0xD60Eu16,
        SonyDeviceControlCode::ZoomControlTele.code() == 0xD63Cu16,
        SonyDeviceControlCode::ZoomControlTeleOneShot.code() == 0xD614u16,
        SonyDeviceControlCode::ZoomControlWide.code() == 0xD63Eu16,
        SonyDeviceControlCode::ZoomControlWideOneShot.code() == 0xD613u16,
        SonyDeviceControlCode::from_code(0xD61Eu16) == Some(SonyDeviceControlCode::AELock),
        SonyDeviceControlCode::from_code(0xD63Bu16) == Some(SonyDeviceControlCode::AFLock),
        SonyDeviceControlCode::from_code(0xD6D9u16) == Some(SonyDeviceControlCode::CameraSettingReset),
        SonyDeviceControlCode::from_code(0xD6C3u16) == Some(SonyDeviceControlCode::ExposureCompensation),
        SonyDeviceControlCode::from_code(0xD6C5u16) == Some(SonyDeviceControlCode::FNumber),
        SonyDeviceControlCode::from_code(0xD6A4u16) == Some(SonyDeviceControlCode::FocusFarForContinuous),
        SonyDeviceControlCode::from_code(0xD6A2u16) == Some(SonyDeviceControlCode::FocusFarForOneShot),
        SonyDeviceControlCode::from_code(0xD6A5u16) == Some(SonyDeviceControlCode::FocusMagnification),
        SonyDeviceControlCode::from_code(0xD6A3u16) == Some(SonyDeviceControlCode::FocusNearForContinuous),
        SonyDeviceControlCode::from_code(0xD6A1u16) == Some(SonyDeviceControlCode::FocusNearForOneShot),
        SonyDeviceControlCode::from_code(0xD630u16) == Some(SonyDeviceControlCode::IntervalStillRecording),
        SonyDeviceControlCode::from_code(0xD6F2u16) == Some(SonyDeviceControlCode::ISO),
        SonyDeviceControlCode::from_code(0xD61Cu16) == Some(SonyDeviceControlCode::MediaFormat),
        SonyDeviceControlCode::from_code(0xD60Fu16) == Some(SonyDeviceControlCode::MovieRecording),
        SonyDeviceControlCode::from_code(0xD637u16) == Some(SonyDeviceControlCode::PowerOff),
        SonyDeviceControlCode::from_code(0xD612u16) == Some(SonyDeviceControlCode::RequestForUpdate),
        SonyDeviceControlCode::from_code(0xD625u16) == Some(SonyDeviceControlCode::RequestForUpdateForLens),
        SonyDeviceControlCode::from_code(0xD61Du16) == Some(SonyDeviceControlCode::S1Button),
        SonyDeviceControlCode::from_code(0xD617u16) == Some(SonyDeviceControlCode::S2Button),
        SonyDeviceControlCode::from_code(0xD6EAu16) == Some(SonyDeviceControlCode::ShutterSpeed),
        SonyDeviceControlCode::from_code(0xD6DAu16) == Some(SonyDeviceControlCode::SystemInit),
        SonyDeviceControlCode::from_code(0xD60Eu16) == Some(SonyDeviceControlCode::ZoomControlAbsolute),
        SonyDeviceControlCode::from_code(0xD63Cu16) == Some(SonyDeviceControlCode::ZoomControlTele),
        SonyDeviceControlCode::from_code(0xD614u16) == Some(SonyDeviceControlCode::ZoomControlTeleOneShot),
        SonyDeviceControlCode::from_code(0xD63Eu16) == Some(SonyDeviceControlCode::ZoomControlWide),
        SonyDeviceControlCode::from_code(0xD613u16) == Some(SonyDeviceControlCode::ZoomControlWideOneShot),
        forall|v: u16| #[trigger] SonyDeviceControlCode::from_code(v) is Some ==> (v == 0xD61Eu16 || v == 0xD63Bu16 || v == 0xD6D9u16 || v == 0xD6C3u16 || v == 0xD6C5u16 || v == 0xD6A4u16 || v == 0xD6A2u16 || v == 0xD6A5u16 || v == 0xD6A3u16 || v == 0xD6A1u16 || v == 0xD630u16 || v == 0xD6F2u16 || v == 0xD61Cu16 || v == 0xD60Fu16 || v == 0xD637u16 || v == 0xD612u16 || v == 0xD625u16 || v == 0xD61Du16 || v == 0xD617u16 || v == 0xD6EAu16 || v == 0xD6DAu16 || v == 0xD60Eu16 || v == 0xD63Cu16 || v == 0xD614u16 || v == 0xD63Eu16 || v == 0xD613u16),
{
}

/// The byte layout of the `SDIO_GetExtDeviceInfo` reply, all little-endian:
/// the extension version in bytes 0 and 1; at byte 2 a 32-bit count of
/// property codes followed by that many 16-bit codes; right after, a 32-bit
/// count of control codes followed by those codes. The reply is read exactly
/// when it is long enough for these fields.
pub proof fn lemma_ext_device_info_layout(s: Seq<u8>)
    ensures
        ({
            let np = s[2] as int + s[3] as int * 256 + s[4] as int * 65536 + s[5] as int * 16777216;
            let c = 6 + 2 * np;
            let nc = s[c] as int + s[c + 1] as int * 256 + s[c + 2] as int * 65536 + s[c + 3] as int
                * 16777216;
            &&& spec_ext_device_info(s) is Some <==> (s.len() >= 6 && c + 4 <= s.len() && c + 4 + 2
                * nc <= s.len())
            &&& spec_ext_device_info(s) matches Some((version, props, controls)) ==> {
                &&& version as int == s[0] as int + s[1] as int * 256
                &&& props.len() == np
                &&& (forall|k: int|
                    0 <= k < np ==> #[trigger] props[k] as int == s[6 + 2 * k] as int + s[7 + 2 * k]
                        as int * 256)
                &&& controls.len() == nc
                &&& (forall|k: int|
                    0 <= k < nc ==> #[trigger] controls[k] as int == s[c + 4 + 2 * k] as int + s[c
                        + 5 + 2 * k] as int * 256)
            }
        }),
{
}

} // verus!
