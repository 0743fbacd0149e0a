//! The native driver as this crate sees it: the entry points it must offer,
//! the requests that are put to it and the replies it gives.
//!
//! Nothing here calls the driver. A request is a value that the caller
//! carries out; the reply comes back as a plain status or count.

use vstd::prelude::*;
use crate::config::VciInitConfig;
use crate::error::CanError;
use crate::frame::VciCanObj;

verus! {

/// The one status with which an entry point reports success.
pub const STATUS_OK: i32 = 1;

/// Number of entry points the driver module must offer.
pub const ENTRY_POINT_COUNT: usize = 8;

/// Parameter the open entry point reserves; always zero.
pub const OPEN_RESERVED: u32 = 0;

/// Frames asked for by one receive call.
pub const RECEIVE_CAPACITY: u32 = 1;

/// Longest wait of one receive call.
pub const RECEIVE_TIMEOUT: i32 = 500;

/// Pause between two iterations of the poll loop.
pub const POLL_INTERVAL: u64 = 10;

/// Board entries the enumerate buffer holds.
pub const ENUMERATE_CAPACITY: u32 = 50;

/// Whether a status reports success. Every value but `STATUS_OK` is a
/// failure; failures are not told apart.
pub open spec fn status_ok(status: i32) -> bool {
    status == STATUS_OK
}

/// Whether a status reports success.
pub fn is_status_ok(status: i32) -> (ok: bool)
    ensures
        ok == status_ok(status),
{
    status == STATUS_OK
}

/// An entry point of the driver module.
#[derive(Clone, Copy, Debug, PartialEq, Eq, Structural)]
pub enum EntryPoint {
    OpenDevice,
    CloseDevice,
    InitCan,
    StartCan,
    Transmit,
    Receive,
    FindUsbDevice2,
    ReadBoardInfo,
}

impl EntryPoint {
    /// Position of the entry point in the order in which they are resolved.
    pub open spec fn ordinal(self) -> int {
        match self {
            EntryPoint::OpenDevice => 0,
            EntryPoint::CloseDevice => 1,
            EntryPoint::InitCan => 2,
            EntryPoint::StartCan => 3,
            EntryPoint::Transmit => 4,
            EntryPoint::Receive => 5,
            EntryPoint::FindUsbDevice2 => 6,
            EntryPoint::ReadBoardInfo => 7,
        }
    }

    /// The entry point at a position, if the position is one.
    pub open spec fn at(index: int) -> Option<EntryPoint> {
        if index == 0 {
            Some(EntryPoint::OpenDevice)
        } else if index == 1 {
            Some(EntryPoint::CloseDevice)
        } else if index == 2 {
            Some(EntryPoint::InitCan)
        } else if index == 3 {
            Some(EntryPoint::StartCan)
        } else if index == 4 {
            Some(EntryPoint::Transmit)
        } else if index == 5 {
            Some(EntryPoint::Receive)
        } else if index == 6 {
            Some(EntryPoint::FindUsbDevice2)
        } else if index == 7 {
            Some(EntryPoint::ReadBoardInfo)
        } else {
            None
        }
    }

    /// Name under which the module exports the entry point.
    pub open spec fn spec_symbol(self) -> Seq<char> {
        match self {
            EntryPoint::OpenDevice => "VCI_OpenDevice"@,
            EntryPoint::CloseDevice => "VCI_CloseDevice"@,
            EntryPoint::InitCan => "VCI_InitCAN"@,
            EntryPoint::StartCan => "VCI_StartCAN"@,
            EntryPoint::Transmit => "VCI_Transmit"@,
            EntryPoint::Receive => "VCI_Receive"@,
            EntryPoint::FindUsbDevice2 => "VCI_FindUsbDevice2"@,
            EntryPoint::ReadBoardInfo => "VCI_ReadBoardInfo"@,
        }
    }

    /// Position of the entry point in the order in which they are resolved.
    pub fn index(&self) -> (index: usize)
        ensures
            index == self.ordinal(),
            index < ENTRY_POINT_COUNT,
            Self::at(index as int) == Some(*self),
    {
        match self {
            EntryPoint::OpenDevice => 0,
            EntryPoint::CloseDevice => 1,
            EntryPoint::InitCan => 2,
            EntryPoint::StartCan => 3,
            EntryPoint::Transmit => 4,
            EntryPoint::Receive => 5,
            EntryPoint::FindUsbDevice2 => 6,
            EntryPoint::ReadBoardInfo => 7,
        }
    }

    /// The entry point at a position; `None` from `ENTRY_POINT_COUNT` on.
    pub fn from_index(index: usize) -> (entry: Option<EntryPoint>)
        ensures
            entry == Self::at(index as int),
            entry is Some <==> index < ENTRY_POINT_COUNT,
            entry matches Some(e) ==> e.ordinal() == index,
    {
        if index == 0 {
            Some(EntryPoint::OpenDevice)
        } else if index == 1 {
            Some(EntryPoint::CloseDevice)
        } else if index == 2 {
            Some(EntryPoint::InitCan)
        } else if index == 3 {
            Some(EntryPoint::StartCan)
        } else if index == 4 {
            Some(EntryPoint::Transmit)
        } else if index == 5 {
            Some(EntryPoint::Receive)
        } else if index == 6 {
            Some(EntryPoint::FindUsbDevice2)
        } else if index == 7 {
            Some(EntryPoint::ReadBoardInfo)
        } else {
            None
        }
    }

    /// Name under which the module exports the entry point.
    pub fn symbol(&self) -> (name: &'static str)
        ensures
            name@ == self.spec_symbol(),
    {
        match self {
            EntryPoint::OpenDevice => "VCI_OpenDevice",
            EntryPoint::CloseDevice => "VCI_CloseDevice",
            EntryPoint::InitCan => "VCI_InitCAN",
            EntryPoint::StartCan => "VCI_StartCAN",
            EntryPoint::Transmit => "VCI_Transmit",
            EntryPoint::Receive => "VCI_Receive",
            EntryPoint::FindUsbDevice2 => "VCI_FindUsbDevice2",
            EntryPoint::ReadBoardInfo => "VCI_ReadBoardInfo",
        }
    }
}

/// File name of the driver module.
pub fn module_name() -> (name: &'static str)
    ensures
        name@ == "ControlCAN.dll"@,
{
    "ControlCAN.dll"
}

/// A binding is usable when the module was found and every entry point was
/// resolved: `resolved` holds one flag per entry point, in their order.
pub open spec fn binding_complete(resolved: Seq<bool>) -> bool {
    &&& resolved.len() == ENTRY_POINT_COUNT
    &&& forall|i: int| 0 <= i < resolved.len() ==> resolved[i]
}

/// Judges a load of the driver module. `resolved` holds, for each entry
/// point in order, whether the module exports it; a module that was not
/// found resolves none. One missing entry point makes the module unusable.
pub fn binding_outcome(resolved: &[bool]) -> (outcome: Result<(), CanError>)
    ensures
        binding_complete(resolved@) ==> outcome == Ok::<(), CanError>(()),
        !binding_complete(resolved@) ==> outcome == Err::<(), CanError>(CanError::DriverLoadFailed),
{
    if resolved.len() != ENTRY_POINT_COUNT {
        return Err(CanError::DriverLoadFailed);
    }
    let mut i: usize = 0;
    while i < resolved.len()
        invariant
            i <= resolved.len(),
            resolved.len() == ENTRY_POINT_COUNT,
            forall|j: int| 0 <= j < i ==> resolved@[j],
        decreases resolved.len() - i,
    {
        if !resolved[i] {
            return Err(CanError::DriverLoadFailed);
        }
        i = i + 1;
    }
    Ok(())
}

/// A call the caller has to make on the crate's behalf.
#[derive(Clone, Copy, Debug, PartialEq, Eq)]
pub enum DriverRequest {
    /// Load the driver module afresh and resolve its entry points.
    LoadBinding,
    /// Open the device.
    Open { device_type: u32, device_index: u32, reserved: u32 },
    /// Close the device. The status it returns is not looked at.
    Close { device_type: u32, device_index: u32 },
    /// Initialise one channel.
    InitChannel { device_type: u32, device_index: u32, channel: u32, config: VciInitConfig },
    /// Start one channel.
    StartChannel { device_type: u32, device_index: u32, channel: u32 },
    /// Send exactly one frame.
    Transmit { device_type: u32, device_index: u32, channel: u32, frame: VciCanObj },
    /// Wait up to `timeout` for at most `capacity` frames.
    Receive { device_type: u32, device_index: u32, channel: u32, capacity: u32, timeout: i32 },
    /// List the attached boards into a buffer of `capacity` entries.
    Enumerate { capacity: u32 },
    /// Read the information of one board.
    ReadBoardInfo { device_type: u32, device_index: u32 },
}

impl DriverRequest {
    /// The frame a request hands to the driver; only a transmit has one.
    pub open spec fn frame(self) -> Option<VciCanObj> {
        match self {
            DriverRequest::Transmit { frame, .. } => Some(frame),
            _ => None,
        }
    }
}

/// What came back from a request.
#[derive(Clone, Copy, Debug, PartialEq, Eq, Structural)]
pub enum DriverReply {
    /// Answer to `LoadBinding`: whether the binding is complete.
    Loaded(bool),
    /// Status or count returned by an entry point.
    Status(i32),
}

} // verus!
