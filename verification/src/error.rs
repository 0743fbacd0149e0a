//! The failures a command can end in.

use vstd::prelude::*;
use vstd::string::*;
use crate::text::{decimal, decimal_text};

verus! {

/// Why a command failed.
#[derive(Clone, Copy, Debug, PartialEq, Eq, Structural)]
pub enum CanError {
    /// The driver module could not be loaded, or lacks an entry point.
    DriverLoadFailed,
    /// The command needs an open device and the session holds none.
    NotInitialized,
    /// The driver refused to open the device.
    OpenFailed,
    /// The driver refused to initialise the given channel.
    InitFailed(u32),
    /// The driver refused to start the given channel.
    StartFailed(u32),
    /// The driver sent no frame.
    TransmitFailed,
    /// No frame arrived within the receive timeout.
    NoFrameAvailable,
    /// The driver could not read the board information.
    ReadFailed,
}

impl CanError {
    /// Whether the failure is reported to the error sink. An empty receive
    /// is the normal case under polling and is the one kind that is not.
    pub open spec fn notifies(self) -> bool {
        !(self is NoFrameAvailable)
    }

    /// Whether the failure is reported to the error sink.
    pub fn is_reported(&self) -> (reported: bool)
        ensures
            reported == self.notifies(),
    {
        match self {
            CanError::NoFrameAvailable => false,
            _ => true,
        }
    }

    /// The failure in words. A failed initialisation or start names its
    /// channel, so that a reconnect tells which of its steps failed.
    pub open spec fn spec_message(self) -> Seq<char> {
        match self {
            CanError::DriverLoadFailed => "Failed to load the CAN driver"@,
            CanError::NotInitialized => "CAN device not initialized"@,
            CanError::OpenFailed => "Failed to open device"@,
            CanError::InitFailed(channel) => "Failed to initialize CAN channel "@ + decimal_text(
                channel as nat,
            ),
            CanError::StartFailed(channel) => "Failed to start CAN channel "@ + decimal_text(
                channel as nat,
            ),
            CanError::TransmitFailed => "Failed to transmit CAN data"@,
            CanError::NoFrameAvailable => "No CAN message received"@,
            CanError::ReadFailed => "Failed to read board info"@,
        }
    }

    /// Puts the failure in words.
    pub fn message(&self) -> (text: String)
        ensures
            text@ == self.spec_message(),
    {
        match self {
            CanError::DriverLoadFailed => String::from_str("Failed to load the CAN driver"),
            CanError::NotInitialized => String::from_str("CAN device not initialized"),
            CanError::OpenFailed => String::from_str("Failed to open device"),
            CanError::InitFailed(channel) => {
                let mut text = String::from_str("Failed to initialize CAN channel ");
                text.append(decimal(*channel).as_str());
                text
            },
            CanError::StartFailed(channel) => {
                let mut text = String::from_str("Failed to start CAN channel ");
                text.append(decimal(*channel).as_str());
                text
            },
            CanError::TransmitFailed => String::from_str("Failed to transmit CAN data"),
            CanError::NoFrameAvailable => String::from_str("No CAN message received"),
            CanError::ReadFailed => String::from_str("Failed to read board info"),
        }
    }
}

} // verus!
