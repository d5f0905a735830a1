//! The commands of the plane system's console.

use vstd::prelude::*;

use crate::camera::data::{PtpData, PtpValue};
use crate::camera::interface::CameraControlCode;

verus! {

/// A console command.
#[derive(Debug)]
pub enum CommandData {
    Camera(CameraCommand),
    Exit,
}

/// A console command to the camera.
#[derive(Debug)]
pub enum CameraCommand {
    ChangeDirectory { directory: String },
    Storage(CameraStorageCommand),
    File(CameraFileCommand),
    Capture,
    Power(CameraPowerCommand),
    Reconnect,
    Zoom { level: u8 },
    Download { file: Option<String> },
}

/// A console command about the camera's storage.
#[derive(Clone, Copy, Debug, PartialEq, Eq, Structural)]
pub enum CameraStorageCommand {
    List,
}

/// A console command about the camera's files.
#[derive(Clone, Copy, Debug, PartialEq, Eq, Structural)]
pub enum CameraFileCommand {
    List,
}

/// Turns the camera on or off.
#[derive(Clone, Copy, Debug, PartialEq, Eq, Structural)]
pub enum CameraPowerCommand {
    Up,
    Down,
}

/// The control that carries out a power command: `PowerOff` with 1 to power
/// up and 2 to power down.
pub fn power_control(cmd: CameraPowerCommand) -> (r: (CameraControlCode, PtpData))
    ensures
        r.0 == CameraControlCode::PowerOff,
        r.1@ == PtpValue::UInt16(
            match cmd {
                CameraPowerCommand::Up => 1u16,
                CameraPowerCommand::Down => 2u16,
            },
        ),
{
    match cmd {
        CameraPowerCommand::Up => (CameraControlCode::PowerOff, PtpData::UINT16(1)),
        CameraPowerCommand::Down => (CameraControlCode::PowerOff, PtpData::UINT16(2)),
    }
}

} // verus!
