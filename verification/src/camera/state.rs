use vstd::prelude::*;

verus! {

/// Something that the camera reports on its own.
#[derive(Clone, Copy, Debug, PartialEq, Eq, Structural)]
pub enum CameraEvent {
    Error(CameraErrorMode),
}

/// The exposure program of the camera (property `ExposureMode`).
#[derive(Clone, Copy, Debug, PartialEq, Eq, Structural)]
pub enum CameraExposureMode {
    ManualExposure,
    ProgramAuto,
    AperturePriority,
    ShutterPriority,
    IntelligentAuto,
    SuperiorAuto,
    MovieProgramAuto,
    MovieAperturePriority,
    MovieShutterPriority,
    MovieManualExposure,
    MovieIntelligentAuto,
}

impl CameraExposureMode {
    /// The numeric code of the value, as the camera encodes it.
    pub open spec fn code(self) -> u16 {
        match self {
            CameraExposureMode::ManualExposure => 0x0001,
            CameraExposureMode::ProgramAuto => 0x0002,
            CameraExposureMode::AperturePriority => 0x0003,
            CameraExposureMode::ShutterPriority => 0x0004,
            CameraExposureMode::IntelligentAuto => 0x8000,
            CameraExposureMode::SuperiorAuto => 0x8001,
            CameraExposureMode::MovieProgramAuto => 0x8050,
            CameraExposureMode::MovieAperturePriority => 0x8051,
            CameraExposureMode::MovieShutterPriority => 0x8052,
            CameraExposureMode::MovieManualExposure => 0x8053,
            CameraExposureMode::MovieIntelligentAuto => 0x8054,
        }
    }

    /// The value whose code is `v`, if there is one.
    pub open spec fn from_code(v: u16) -> Option<CameraExposureMode> {
        if v == 0x0001 {
            Some(CameraExposureMode::ManualExposure)
        } else if v == 0x0002 {
            Some(CameraExposureMode::ProgramAuto)
        } else if v == 0x0003 {
            Some(CameraExposureMode::AperturePriority)
        } else if v == 0x0004 {
            Some(CameraExposureMode::ShutterPriority)
        } else if v == 0x8000 {
            Some(CameraExposureMode::IntelligentAuto)
        } else if v == 0x8001 {
            Some(CameraExposureMode::SuperiorAuto)
        } else if v == 0x8050 {
            Some(CameraExposureMode::MovieProgramAuto)
        } else if v == 0x8051 {
            Some(CameraExposureMode::MovieAperturePriority)
        } else if v == 0x8052 {
            Some(CameraExposureMode::MovieShutterPriority)
        } else if v == 0x8053 {
            Some(CameraExposureMode::MovieManualExposure)
        } else if v == 0x8054 {
            Some(CameraExposureMode::MovieIntelligentAuto)
        } else {
            None
        }
    }

    /// The numeric code of this value.
    pub fn to_u16(&self) -> (r: u16)
        ensures
            r == self.code(),
    {
        match self {
            CameraExposureMode::ManualExposure => 0x0001,
            CameraExposureMode::ProgramAuto => 0x0002,
            CameraExposureMode::AperturePriority => 0x0003,
            CameraExposureMode::ShutterPriority => 0x0004,
            CameraExposureMode::IntelligentAuto => 0x8000,
            CameraExposureMode::SuperiorAuto => 0x8001,
            CameraExposureMode::MovieProgramAuto => 0x8050,
            CameraExposureMode::MovieAperturePriority => 0x8051,
            CameraExposureMode::MovieShutterPriority => 0x8052,
            CameraExposureMode::MovieManualExposure => 0x8053,
            CameraExposureMode::MovieIntelligentAuto => 0x8054,
        }
    }

    /// Decodes a numeric code; `None` for a code that names no value.
    pub fn from_u16(v: u16) -> (r: Option<CameraExposureMode>)
        ensures
            r == CameraExposureMode::from_code(v),
    {
        if v == 0x0001 {
            Some(CameraExposureMode::ManualExposure)
        } else if v == 0x0002 {
            Some(CameraExposureMode::ProgramAuto)
        } else if v == 0x0003 {
            Some(CameraExposureMode::AperturePriority)
        } else if v == 0x0004 {
            Some(CameraExposureMode::ShutterPriority)
        } else if v == 0x8000 {
            Some(CameraExposureMode::IntelligentAuto)
        } else if v == 0x8001 {
            Some(CameraExposureMode::SuperiorAuto)
        } else if v == 0x8050 {
            Some(CameraExposureMode::MovieProgramAuto)
        } else if v == 0x8051 {
            Some(CameraExposureMode::MovieAperturePriority)
        } else if v == 0x8052 {
            Some(CameraExposureMode::MovieShutterPriority)
        } else if v == 0x8053 {
            Some(CameraExposureMode::MovieManualExposure)
        } else if v == 0x8054 {
            Some(CameraExposureMode::MovieIntelligentAuto)
        } else {
            None
        }
    }
}

/// Decoding the code of a `CameraExposureMode` gives the value back, and a code
/// that decodes to a value is that value's code.
pub proof fn lemma_exposure_mode_code_round_trip(m: CameraExposureMode, v: u16)
    ensures
        CameraExposureMode::from_code(m.code()) == Some(m),
        CameraExposureMode::from_code(v) matches Some(n) ==> n.code() == v,
{
}

/// The still image quality (property `Compression`).
#[derive(Clone, Copy, Debug, PartialEq, Eq, Structural)]
pub enum CameraCompressionMode {
    Std,
    Fine,
    RawJpeg,
}

impl CameraCompressionMode {
    /// The numeric code of the value, as the camera encodes it.
    pub open spec fn code(self) -> u8 {
        match self {
            CameraCompressionMode::Std => 0x02,
            CameraCompressionMode::Fine => 0x03,
            CameraCompressionMode::RawJpeg => 0x13,
        }
    }

    /// The value whose code is `v`, if there is one.
    pub open spec fn from_code(v: u8) -> Option<CameraCompressionMode> {
        if v == 0x02 {
            Some(CameraCompressionMode::Std)
        } else if v == 0x03 {
            Some(CameraCompressionMode::Fine)
        } else if v == 0x13 {
            Some(CameraCompressionMode::RawJpeg)
        } else {
            None
        }
    }

    /// The numeric code of this value.
    pub fn to_u8(&self) -> (r: u8)
        ensures
            r == self.code(),
    {
        match self {
            CameraCompressionMode::Std => 0x02,
            CameraCompressionMode::Fine => 0x03,
            CameraCompressionMode::RawJpeg => 0x13,
        }
    }

    /// Decodes a numeric code; `None` for a code that names no value.
    pub fn from_u8(v: u8) -> (r: Option<CameraCompressionMode>)
        ensures
            r == CameraCompressionMode::from_code(v),
    {
        if v == 0x02 {
            Some(CameraCompressionMode::Std)
        } else if v == 0x03 {
            Some(CameraCompressionMode::Fine)
        } else if v == 0x13 {
            Some(CameraCompressionMode::RawJpeg)
        } else {
            None
        }
    }
}

/// Decoding the code of a `CameraCompressionMode` gives the value back, and a code
/// that decodes to a value is that value's code.
pub proof fn lemma_compression_mode_code_round_trip(m: CameraCompressionMode, v: u8)
    ensures
        CameraCompressionMode::from_code(m.code()) == Some(m),
        CameraCompressionMode::from_code(v) matches Some(n) ==> n.code() == v,
{
}

/// Where captured images are stored (property `SaveMedia`).
#[derive(Clone, Copy, Debug, PartialEq, Eq, Structural)]
pub enum CameraSaveMode {
    HostDevice,
    MemoryCard1,
}

impl CameraSaveMode {
    /// The numeric code of the value, as the camera encodes it.
    pub open spec fn code(self) -> u16 {
        match self {
            CameraSaveMode::HostDevice => 0x0001,
            CameraSaveMode::MemoryCard1 => 0x0002,
        }
    }

    /// The value whose code is `v`, if there is one.
    pub open spec fn from_code(v: u16) -> Option<CameraSaveMode> {
        if v == 0x0001 {
            Some(CameraSaveMode::HostDevice)
        } else if v == 0x0002 {
            Some(CameraSaveMode::MemoryCard1)
        } else {
            None
        }
    }

    /// The numeric code of this value.
    pub fn to_u16(&self) -> (r: u16)
        ensures
            r == self.code(),
    {
        match self {
            CameraSaveMode::HostDevice => 0x0001,
            CameraSaveMode::MemoryCard1 => 0x0002,
        }
    }

    /// Decodes a numeric code; `None` for a code that names no value.
    pub fn from_u16(v: u16) -> (r: Option<CameraSaveMode>)
        ensures
            r == CameraSaveMode::from_code(v),
    {
        if v == 0x0001 {
            Some(CameraSaveMode::HostDevice)
        } else if v == 0x0002 {
            Some(CameraSaveMode::MemoryCard1)
        } else {
            None
        }
    }
}

/// Decoding the code of a `CameraSaveMode` gives the value back, and a code
/// that decodes to a value is that value's code.
pub proof fn lemma_save_mode_code_round_trip(m: CameraSaveMode, v: u16)
    ensures
        CameraSaveMode::from_code(m.code()) == Some(m),
        CameraSaveMode::from_code(v) matches Some(n) ==> n.code() == v,
{
}

/// A caution that the camera raises (property `Caution`).
#[derive(Clone, Copy, Debug, PartialEq, Eq, Structural)]
pub enum CameraErrorMode {
    /// Hardware failure, etc
    Fatal,
    /// Error of recording still image and movie, etc
    RecordingFailed,
    /// Full of still image, movie, etc.
    RecordingFailedStorageFull,
    /// Full of memory card, etc.
    RecordingFailedMediaFull,
    /// Data error, access error of memory card, etc.
    Media,
    /// Unsupported memory card, etc.
    UnsupportedMedia,
    /// Error of unsupported image size, etc.
    IncompatibleMedia,
    /// Media none
    NoMedia,
    /// During the recovery of media
    MediaInRecovery,
    MediaRecoveryFailed,
    Temperature,
    Battery,
    Reserved,
    LensNotRecognized,
    CaptureOnCapturing,
    SettingFailure,
}

impl CameraErrorMode {
    /// The numeric code of the value, as the camera encodes it.
    pub open spec fn code(self) -> u16 {
        match self {
            CameraErrorMode::Fatal => 0x8000,
            CameraErrorMode::RecordingFailed => 0x4000,
            CameraErrorMode::RecordingFailedStorageFull => 0x2000,
            CameraErrorMode::RecordingFailedMediaFull => 0x1000,
            CameraErrorMode::Media => 0x0800,
            CameraErrorMode::UnsupportedMedia => 0x0400,
            CameraErrorMode::IncompatibleMedia => 0x0200,
            CameraErrorMode::NoMedia => 0x0100,
            CameraErrorMode::MediaInRecovery => 0x0080,
            CameraErrorMode::MediaRecoveryFailed => 0x0040,
            CameraErrorMode::Temperature => 0x0020,
            CameraErrorMode::Battery => 0x0010,
            CameraErrorMode::Reserved => 0x0008,
            CameraErrorMode::LensNotRecognized => 0x0004,
            CameraErrorMode::CaptureOnCapturing => 0x0002,
            CameraErrorMode::SettingFailure => 0x0001,
        }
    }

    /// The value whose code is `v`, if there is one.
    pub open spec fn from_code(v: u16) -> Option<CameraErrorMode> {
        if v == 0x8000 {
            Some(CameraErrorMode::Fatal)
        } else if v == 0x4000 {
            Some(CameraErrorMode::RecordingFailed)
        } else if v == 0x2000 {
            Some(CameraErrorMode::RecordingFailedStorageFull)
        } else if v == 0x1000 {
            Some(CameraErrorMode::RecordingFailedMediaFull)
        } else if v == 0x0800 {
            Some(CameraErrorMode::Media)
        } else if v == 0x0400 {
            Some(CameraErrorMode::UnsupportedMedia)
        } else if v == 0x0200 {
            Some(CameraErrorMode::IncompatibleMedia)
        } else if v == 0x0100 {
            Some(CameraErrorMode::NoMedia)
        } else if v == 0x0080 {
            Some(CameraErrorMode::MediaInRecovery)
        } else if v == 0x0040 {
            Some(CameraErrorMode::MediaRecoveryFailed)
        } else if v == 0x0020 {
            Some(CameraErrorMode::Temperature)
        } else if v == 0x0010 {
            Some(CameraErrorMode::Battery)
        } else if v == 0x0008 {
            Some(CameraErrorMode::Reserved)
        } else if v == 0x0004 {
            Some(CameraErrorMode::LensNotRecognized)
        } else if v == 0x0002 {
            Some(CameraErrorMode::CaptureOnCapturing)
        } else if v == 0x0001 {
            Some(CameraErrorMode::SettingFailure)
        } else {
            None
        }
    }

    /// The numeric code of this value.
    pub fn to_u16(&self) -> (r: u16)
        ensures
            r == self.code(),
    {
        match self {
            CameraErrorMode::Fatal => 0x8000,
            CameraErrorMode::RecordingFailed => 0x4000,
            CameraErrorMode::RecordingFailedStorageFull => 0x2000,
            CameraErrorMode::RecordingFailedMediaFull => 0x1000,
            CameraErrorMode::Media => 0x0800,
            CameraErrorMode::UnsupportedMedia => 0x0400,
            CameraErrorMode::IncompatibleMedia => 0x0200,
            CameraErrorMode::NoMedia => 0x0100,
            CameraErrorMode::MediaInRecovery => 0x0080,
            CameraErrorMode::MediaRecoveryFailed => 0x0040,
            CameraErrorMode::Temperature => 0x0020,
            CameraErrorMode::Battery => 0x0010,
            CameraErrorMode::Reserved => 0x0008,
            CameraErrorMode::LensNotRecognized => 0x0004,
            CameraErrorMode::CaptureOnCapturing => 0x0002,
            CameraErrorMode::SettingFailure => 0x0001,
        }
    }

    /// Decodes a numeric code; `None` for a code that names no value.
    pub fn from_u16(v: u16) -> (r: Option<CameraErrorMode>)
        ensures
            r == CameraErrorMode::from_code(v),
    {
        if v == 0x8000 {
            Some(CameraErrorMode::Fatal)
        } else if v == 0x4000 {
            Some(CameraErrorMode::RecordingFailed)
        } else if v == 0x2000 {
            Some(CameraErrorMode::RecordingFailedStorageFull)
        } else if v == 0x1000 {
            Some(CameraErrorMode::RecordingFailedMediaFull)
        } else if v == 0x0800 {
            Some(CameraErrorMode::Media)
        } else if v == 0x0400 {
            Some(CameraErrorMode::UnsupportedMedia)
        } else if v == 0x0200 {
            Some(CameraErrorMode::IncompatibleMedia)
        } else if v == 0x0100 {
            Some(CameraErrorMode::NoMedia)
        } else if v == 0x0080 {
            Some(CameraErrorMode::MediaInRecovery)
        } else if v == 0x0040 {
            Some(CameraErrorMode::MediaRecoveryFailed)
        } else if v == 0x0020 {
            Some(CameraErrorMode::Temperature)
        } else if v == 0x0010 {
            Some(CameraErrorMode::Battery)
        } else if v == 0x0008 {
            Some(CameraErrorMode::Reserved)
        } else if v == 0x0004 {
            Some(CameraErrorMode::LensNotRecognized)
        } else if v == 0x0002 {
            Some(CameraErrorMode::CaptureOnCapturing)
        } else if v == 0x0001 {
            Some(CameraErrorMode::SettingFailure)
        } else {
            None
        }
    }
}

/// Decoding the code of a `CameraErrorMode` gives the value back, and a code
/// that decodes to a value is that value's code.
pub proof fn lemma_error_mode_code_round_trip(m: CameraErrorMode, v: u16)
    ensures
        CameraErrorMode::from_code(m.code()) == Some(m),
        CameraErrorMode::from_code(v) matches Some(n) ==> n.code() == v,
{
}

/// The operating mode of the camera (property `OperatingMode`).
#[derive(Clone, Copy, Debug, PartialEq, Eq, Structural)]
pub enum CameraOperatingMode {
    Standby,
    StillRec,
    MovieRec,
    ContentsTransfer,
}

impl CameraOperatingMode {
    /// The numeric code of the value, as the camera encodes it.
    pub open spec fn code(self) -> u8 {
        match self {
            CameraOperatingMode::Standby => 0x01,
            CameraOperatingMode::StillRec => 0x02,
            CameraOperatingMode::MovieRec => 0x03,
            CameraOperatingMode::ContentsTransfer => 0x04,
        }
    }

    /// The value whose code is `v`, if there is one.
    pub open spec fn from_code(v: u8) -> Option<CameraOperatingMode> {
        if v == 0x01 {
            Some(CameraOperatingMode::Standby)
        } else if v == 0x02 {
            Some(CameraOperatingMode::StillRec)
        } else if v == 0x03 {
            Some(CameraOperatingMode::MovieRec)
        } else if v == 0x04 {
            Some(CameraOperatingMode::ContentsTransfer)
        } else {
            None
        }
    }

    /// The numeric code of this value.
    pub fn to_u8(&self) -> (r: u8)
        ensures
            r == self.code(),
    {
        match self {
            CameraOperatingMode::Standby => 0x01,
            CameraOperatingMode::StillRec => 0x02,
            CameraOperatingMode::MovieRec => 0x03,
            CameraOperatingMode::ContentsTransfer => 0x04,
        }
    }

    /// Decodes a numeric code; `None` for a code that names no value.
    pub fn from_u8(v: u8) -> (r: Option<CameraOperatingMode>)
        ensures
            r == CameraOperatingMode::from_code(v),
    {
        if v == 0x01 {
            Some(CameraOperatingMode::Standby)
        } else if v == 0x02 {
            Some(CameraOperatingMode::StillRec)
        } else if v == 0x03 {
            Some(CameraOperatingMode::MovieRec)
        } else if v == 0x04 {
            Some(CameraOperatingMode::ContentsTransfer)
        } else {
            None
        }
    }
}

/// Decoding the code of a `CameraOperatingMode` gives the value back, and a code
/// that decodes to a value is that value's code.
pub proof fn lemma_operating_mode_code_round_trip(m: CameraOperatingMode, v: u8)
    ensures
        CameraOperatingMode::from_code(m.code()) == Some(m),
        CameraOperatingMode::from_code(v) matches Some(n) ==> n.code() == v,
{
}

/// The focus mode of the camera (property `FocusMode`).
#[derive(Clone, Copy, Debug, PartialEq, Eq, Structural)]
pub enum CameraFocusMode {
    Manual,
    AutoFocusStill,
    AutoFocusContinuous,
}

impl CameraFocusMode {
    /// The numeric code of the value, as the camera encodes it.
    pub open spec fn code(self) -> u16 {
        match self {
            CameraFocusMode::Manual => 0x0001,
            CameraFocusMode::AutoFocusStill => 0x0002,
            CameraFocusMode::AutoFocusContinuous => 0x8004,
        }
    }

    /// The value whose code is `v`, if there is one.
    pub open spec fn from_code(v: u16) -> Option<CameraFocusMode> {
        if v == 0x0001 {
            Some(CameraFocusMode::Manual)
        } else if v == 0x0002 {
            Some(CameraFocusMode::AutoFocusStill)
        } else if v == 0x8004 {
            Some(CameraFocusMode::AutoFocusContinuous)
        } else {
            None
        }
    }

    /// The numeric code of this value.
    pub fn to_u16(&self) -> (r: u16)
        ensures
            r == self.code(),
    {
        match self {
            CameraFocusMode::Manual => 0x0001,
            CameraFocusMode::AutoFocusStill => 0x0002,
            CameraFocusMode::AutoFocusContinuous => 0x8004,
        }
    }

    /// Decodes a numeric code; `None` for a code that names no value.
    pub fn from_u16(v: u16) -> (r: Option<CameraFocusMode>)
        ensures
            r == CameraFocusMode::from_code(v),
    {
        if v == 0x0001 {
            Some(CameraFocusMode::Manual)
        } else if v == 0x0002 {
            Some(CameraFocusMode::AutoFocusStill)
        } else if v == 0x8004 {
            Some(CameraFocusMode::AutoFocusContinuous)
        } else {
            None
        }
    }
}

/// Decoding the code of a `CameraFocusMode` gives the value back, and a code
/// that decodes to a value is that value's code.
pub proof fn lemma_focus_mode_code_round_trip(m: CameraFocusMode, v: u16)
    ensures
        CameraFocusMode::from_code(m.code()) == Some(m),
        CameraFocusMode::from_code(v) matches Some(n) ==> n.code() == v,
{
}

/// How the camera zooms.
#[derive(Clone, Copy, Debug, PartialEq, Eq, Structural)]
pub enum CameraZoomMode {
    Optical,
    OpticalDigital,
}

/// The exposure-mode codes that the camera uses, mode by mode: manual 1,
/// program auto 2, aperture priority 3, shutter priority 4, the automatic
/// modes from 0x8000 and the movie modes from 0x8050; no other code names a
/// mode.
pub proof fn lemma_exposure_mode_code_table()
    ensures
        CameraExposureMode::ManualExposure.code() == 0x0001u16,
        CameraExposureMode::ProgramAuto.code() == 0x0002u16,
        CameraExposureMode::AperturePriority.code() == 0x0003u16,
        CameraExposureMode::ShutterPriority.code() == 0x0004u16,
        CameraExposureMode::IntelligentAuto.code() == 0x8000u16,
        CameraExposureMode::SuperiorAuto.code() == 0x8001u16,
        CameraExposureMode::MovieProgramAuto.code() == 0x8050u16,
        CameraExposureMode::MovieAperturePriority.code() == 0x8051u16,
        CameraExposureMode::MovieShutterPriority.code() == 0x8052u16,
        CameraExposureMode::MovieManualExposure.code() == 0x8053u16,
        CameraExposureMode::MovieIntelligentAuto.code() == 0x8054u16,
        CameraExposureMode::from_code(0x0001u16) == Some(CameraExposureMode::ManualExposure),
        CameraExposureMode::from_code(0x0002u16) == Some(CameraExposureMode::ProgramAuto),
        CameraExposureMode::from_code(0x0003u16) == Some(CameraExposureMode::AperturePriority),
        CameraExposureMode::from_code(0x0004u16) == Some(CameraExposureMode::ShutterPriority),
        CameraExposureMode::from_code(0x8000u16) == Some(CameraExposureMode::IntelligentAuto),
        CameraExposureMode::from_code(0x8001u16) == Some(CameraExposureMode::SuperiorAuto),
        CameraExposureMode::from_code(0x8050u16) == Some(CameraExposureMode::MovieProgramAuto),
        CameraExposureMode::from_code(0x8051u16) == Some(CameraExposureMode::MovieAperturePriority),
        CameraExposureMode::from_code(0x8052u16) == Some(CameraExposureMode::MovieShutterPriority),
        CameraExposureMode::from_code(0x8053u16) == Some(CameraExposureMode::MovieManualExposure),
        CameraExposureMode::from_code(0x8054u16) == Some(CameraExposureMode::MovieIntelligentAuto),
        forall|v: u16| #[trigger] CameraExposureMode::from_code(v) is Some ==> (v == 0x0001u16 || v == 0x0002u16 || v == 0x0003u16 || v == 0x0004u16 || v == 0x8000u16 || v == 0x8001u16 || v == 0x8050u16 || v == 0x8051u16 || v == 0x8052u16 || v == 0x8053u16 || v == 0x8054u16),
{
}

/// The compression codes that the camera uses: standard 0x02, fine 0x03,
/// RAW+JPEG 0x13; no other code names a compression mode.
pub proof fn lemma_compression_mode_code_table()
    ensures
        CameraCompressionMode::Std.code() == 0x02u8,
        CameraCompressionMode::Fine.code() == 0x03u8,
        CameraCompressionMode::RawJpeg.code() == 0x13u8,
        CameraCompressionMode::from_code(0x02u8) == Some(CameraCompressionMode::Std),
        CameraCompressionMode::from_code(0x03u8) == Some(CameraCompressionMode::Fine),
        CameraCompressionMode::from_code(0x13u8) == Some(CameraCompressionMode::RawJpeg),
        forall|v: u8| #[trigger] CameraCompressionMode::from_code(v) is Some ==> (v == 0x02u8 || v == 0x03u8 || v == 0x13u8),
{
}

/// The save-media codes that the camera uses: the host 1, the memory card 2;
/// no other code names a save medium.
pub proof fn lemma_save_mode_code_table()
    ensures
        CameraSaveMode::HostDevice.code() == 0x0001u16,
        CameraSaveMode::MemoryCard1.code() == 0x0002u16,
        CameraSaveMode::from_code(0x0001u16) == Some(CameraSaveMode::HostDevice),
        CameraSaveMode::from_code(0x0002u16) == Some(CameraSaveMode::MemoryCard1),
        forall|v: u16| #[trigger] CameraSaveMode::from_code(v) is Some ==> (v == 0x0001u16 || v == 0x0002u16),
{
}

/// The bits of the camera's `Caution` property, one error each, from
/// 0x8000 (fatal) down to 0x0001 (setting failed): for example 0x0800 is a
/// media error and 0x0100 no media; no other value names an error.
pub proof fn lemma_error_mode_code_table()
    ensures
        CameraErrorMode::Fatal.code() == 0x8000u16,
        CameraErrorMode::RecordingFailed.code() == 0x4000u16,
        CameraErrorMode::RecordingFailedStorageFull.code() == 0x2000u16,
        CameraErrorMode::RecordingFailedMediaFull.code() == 0x1000u16,
        CameraErrorMode::Media.code() == 0x0800u16,
        CameraErrorMode::UnsupportedMedia.code() == 0x0400u16,
        CameraErrorMode::IncompatibleMedia.code() == 0x0200u16,
        CameraErrorMode::NoMedia.code() == 0x0100u16,
        CameraErrorMode::MediaInRecovery.code() == 0x0080u16,
        CameraErrorMode::MediaRecoveryFailed.code() == 0x0040u16,
        CameraErrorMode::Temperature.code() == 0x0020u16,
        CameraErrorMode::Battery.code() == 0x0010u16,
        CameraErrorMode::Reserved.code() == 0x0008u16,
        CameraErrorMode::LensNotRecognized.code() == 0x0004u16,
        CameraErrorMode::CaptureOnCapturing.code() == 0x0002u16,
        CameraErrorMode::SettingFailure.code() == 0x0001u16,
        CameraErrorMode::from_code(0x8000u16) == Some(CameraErrorMode::Fatal),
        CameraErrorMode::from_code(0x4000u16) == Some(CameraErrorMode::RecordingFailed),
        CameraErrorMode::from_code(0x2000u16) == Some(CameraErrorMode::RecordingFailedStorageFull),
        CameraErrorMode::from_code(0x1000u16) == Some(CameraErrorMode::RecordingFailedMediaFull),
        CameraErrorMode::from_code(0x0800u16) == Some(CameraErrorMode::Media),
        CameraErrorMode::from_code(0x0400u16) == Some(CameraErrorMode::UnsupportedMedia),
        CameraErrorMode::from_code(0x0200u16) == Some(CameraErrorMode::IncompatibleMedia),
        CameraErrorMode::from_code(0x0100u16) == Some(CameraErrorMode::NoMedia),
        CameraErrorMode::from_code(0x0080u16) == Some(CameraErrorMode::MediaInRecovery),
        CameraErrorMode::from_code(0x0040u16) == Some(CameraErrorMode::MediaRecoveryFailed),
        CameraErrorMode::from_code(0x0020u16) == Some(CameraErrorMode::Temperature),
        CameraErrorMode::from_code(0x0010u16) == Some(CameraErrorMode::Battery),
        CameraErrorMode::from_code(0x0008u16) == Some(CameraErrorMode::Reserved),
        CameraErrorMode::from_code(0x0004u16) == Some(CameraErrorMode::LensNotRecognized),
        CameraErrorMode::from_code(0x0002u16) == Some(CameraErrorMode::CaptureOnCapturing),
        CameraErrorMode::from_code(0x0001u16) == Some(CameraErrorMode::SettingFailure),
        forall|v: u16| #[trigger] CameraErrorMode::from_code(v) is Some ==> (v == 0x8000u16 || v == 0x4000u16 || v == 0x2000u16 || v == 0x1000u16 || v == 0x0800u16 || v == 0x0400u16 || v == 0x0200u16 || v == 0x0100u16 || v == 0x0080u16 || v == 0x0040u16 || v == 0x0020u16 || v == 0x0010u16 || v == 0x0008u16 || v == 0x0004u16 || v == 0x0002u16 || v == 0x0001u16),
{
}

/// The operating-mode codes that the camera uses: standby 1, still
/// recording 2, movie recording 3, contents transfer 4; no other code names
/// a mode.
pub proof fn lemma_operating_mode_code_table()
    ensures
        CameraOperatingMode::Standby.code() == 0x01u8,
        CameraOperatingMode::StillRec.code() == 0x02u8,
        CameraOperatingMode::MovieRec.code() == 0x03u8,
        CameraOperatingMode::ContentsTransfer.code() == 0x04u8,
        CameraOperatingMode::from_code(0x01u8) == Some(CameraOperatingMode::Standby),
        CameraOperatingMode::from_code(0x02u8) == Some(CameraOperatingMode::StillRec),
        CameraOperatingMode::from_code(0x03u8) == Some(CameraOperatingMode::MovieRec),
        CameraOperatingMode::from_code(0x04u8) == Some(CameraOperatingMode::ContentsTransfer),
        forall|v: u8| #[trigger] CameraOperatingMode::from_code(v) is Some ==> (v == 0x01u8 || v == 0x02u8 || v == 0x03u8 || v == 0x04u8),
{
}

/// The focus-mode codes that the camera uses: manual 1, single-shot
/// autofocus 2, continuous autofocus 0x8004; no other code names a mode.
pub proof fn lemma_focus_mode_code_table()
    ensures
        CameraFocusMode::Manual.code() == 0x0001u16,
        CameraFocusMode::AutoFocusStill.code() == 0x0002u16,
        CameraFocusMode::AutoFocusContinuous.code() == 0x8004u16,
        CameraFocusMode::from_code(0x0001u16) == Some(CameraFocusMode::Manual),
        CameraFocusMode::from_code(0x0002u16) == Some(CameraFocusMode::AutoFocusStill),
        CameraFocusMode::from_code(0x8004u16) == Some(CameraFocusMode::AutoFocusContinuous),
        forall|v: u16| #[trigger] CameraFocusMode::from_code(v) is Some ==> (v == 0x0001u16 || v == 0x0002u16 || v == 0x8004u16),
{
}

} // verus!
