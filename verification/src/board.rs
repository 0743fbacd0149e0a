//! Board information as the driver fills it in, and what is shown of it.

use vstd::prelude::*;
use crate::driver::{status_ok, STATUS_OK};
use crate::error::CanError;
use crate::text::{ascii_text, decode_field, field_text, is_ascii_bytes, trim_nul};

verus! {

/// Width of the serial-number field.
pub const SERIAL_WIDTH: usize = 20;

/// Width of the hardware-type field.
pub const HW_TYPE_WIDTH: usize = 40;

/// Identity and versions of one adapter, in the driver's layout. The two
/// strings are fixed-width fields padded with NUL bytes.
#[derive(Clone, Copy, Debug, PartialEq, Eq)]
pub struct VciBoardInfo {
    pub hw_version: u16,
    pub fw_version: u16,
    pub dr_version: u16,
    pub in_version: u16,
    pub irq_num: u16,
    pub can_num: u8,
    pub str_serial_num: [u8; 20],
    pub str_hw_type: [u8; 40],
    pub reserved: [u16; 4],
}

/// One entry of an enumeration.
#[derive(Debug, PartialEq, Eq)]
pub struct DeviceInfo {
    pub index: i32,
    pub serial_number: String,
    pub firmware_version: u16,
}

/// What a read of one board's information gives.
#[derive(Debug, PartialEq, Eq)]
pub struct BoardInfo {
    pub hardware_version: u16,
    pub firmware_version: u16,
    pub serial_number: String,
}

/// A `DeviceInfo` with its text as a sequence of characters.
pub struct DeviceInfoView {
    pub index: int,
    pub serial_number: Seq<char>,
    pub firmware_version: u16,
}

/// A `BoardInfo` with its text as a sequence of characters.
pub struct BoardInfoView {
    pub hardware_version: u16,
    pub firmware_version: u16,
    pub serial_number: Seq<char>,
}

impl View for DeviceInfo {
    type V = DeviceInfoView;

    open spec fn view(&self) -> DeviceInfoView {
        DeviceInfoView {
            index: self.index as int,
            serial_number: self.serial_number@,
            firmware_version: self.firmware_version,
        }
    }
}

impl View for BoardInfo {
    type V = BoardInfoView;

    open spec fn view(&self) -> BoardInfoView {
        BoardInfoView {
            hardware_version: self.hardware_version,
            firmware_version: self.firmware_version,
            serial_number: self.serial_number@,
        }
    }
}

impl VciBoardInfo {
    /// Every field is zero.
    pub open spec fn zeroed(&self) -> bool {
        &&& self.hw_version == 0
        &&& self.fw_version == 0
        &&& self.dr_version == 0
        &&& self.in_version == 0
        &&& self.irq_num == 0
        &&& self.can_num == 0
        &&& forall|i: int| 0 <= i < 20 ==> self.str_serial_num[i] == 0
        &&& forall|i: int| 0 <= i < 40 ==> self.str_hw_type[i] == 0
        &&& forall|i: int| 0 <= i < 4 ==> self.reserved[i] == 0
    }

    /// The serial number as text.
    pub open spec fn spec_serial_number(&self) -> Seq<char> {
        field_text(self.str_serial_num@)
    }

    /// The hardware type as text.
    pub open spec fn spec_hardware_type(&self) -> Seq<char> {
        field_text(self.str_hw_type@)
    }

    /// The entry an enumeration shows for this board at position `index`.
    pub open spec fn device_info(&self, index: int) -> DeviceInfoView {
        DeviceInfoView {
            index,
            serial_number: self.spec_serial_number(),
            firmware_version: self.fw_version,
        }
    }

    /// What a read shows of this board.
    pub open spec fn board_info(&self) -> BoardInfoView {
        BoardInfoView {
            hardware_version: self.hw_version,
            firmware_version: self.fw_version,
            serial_number: self.spec_serial_number(),
        }
    }

    /// Reads the serial number: decoded permissively, NUL padding removed.
    pub fn serial_number(&self) -> (text: String)
        ensures
            text@ == self.spec_serial_number(),
            is_ascii_bytes(self.str_serial_num@) ==> text@ == trim_nul(
                ascii_text(self.str_serial_num@),
            ),
    {
        decode_field(self.str_serial_num.as_slice())
    }

    /// Reads the hardware type: decoded permissively, NUL padding removed.
    pub fn hardware_type(&self) -> (text: String)
        ensures
            text@ == self.spec_hardware_type(),
            is_ascii_bytes(self.str_hw_type@) ==> text@ == trim_nul(ascii_text(self.str_hw_type@)),
    {
        decode_field(self.str_hw_type.as_slice())
    }
}

impl Default for VciBoardInfo {
    /// The board information before the driver has filled it in.
    fn default() -> (board: VciBoardInfo)
        ensures
            board.zeroed(),
    {
        VciBoardInfo {
            hw_version: 0,
            fw_version: 0,
            dr_version: 0,
            in_version: 0,
            irq_num: 0,
            can_num: 0,
            str_serial_num: [0;20],
            str_hw_type: [0;40],
            reserved: [0;4],
        }
    }
}

/// Number of entries an enumeration lists: the count the driver returned,
/// held between nothing and the size of the buffer it was given.
pub open spec fn listed(count: i32, capacity: nat) -> nat {
    if count <= 0 {
        0
    } else if count as nat <= capacity {
        count as nat
    } else {
        capacity
    }
}

/// Gives the result of an enumeration, from the count the driver returned
/// and the buffer it filled. The boards are listed in the buffer's order,
/// each with its position as index. A count of zero or less lists nothing,
/// which is no failure; a count beyond the buffer lists the whole buffer and
/// reads nothing past it.
pub fn enumerate_outcome(count: i32, boards: &[VciBoardInfo]) -> (devices: Vec<DeviceInfo>)
    ensures
        devices.len() == listed(count, boards@.len()),
        forall|i: int| 0 <= i < devices.len() ==> (#[trigger] devices[i])@ == boards[i].device_info(i),
{
    let mut devices: Vec<DeviceInfo> = Vec::new();
    if count <= 0 {
        return devices;
    }
    let mut index: i32 = 0;
    while index < count && (index as usize) < boards.len()
        invariant
            0 <= index <= count,
            index <= boards.len(),
            devices.len() == index,
            forall|i: int| 0 <= i < devices.len() ==> (#[trigger] devices[i])@ == boards[i].device_info(i),
        decreases count - index,
    {
        let board = &boards[index as usize];
        devices.push(
            DeviceInfo {
                index,
                serial_number: board.serial_number(),
                firmware_version: board.fw_version,
            },
        );
        index = index + 1;
    }
    devices
}

/// Gives the result of a read of one board's information, from the status
/// the driver returned and the record it filled: `ReadFailed` on any status
/// but success.
pub fn board_info_outcome(status: i32, board: &VciBoardInfo) -> (outcome: Result<
    BoardInfo,
    CanError,
>)
    ensures
        status_ok(status) ==> (outcome matches Ok(info) && info@ == board.board_info()),
        !status_ok(status) ==> outcome == Err::<BoardInfo, CanError>(CanError::ReadFailed),
{
    if status != STATUS_OK {
        return Err(CanError::ReadFailed);
    }
    Ok(
        BoardInfo {
            hardware_version: board.hw_version,
            firmware_version: board.fw_version,
            serial_number: board.serial_number(),
        },
    )
}

} // verus!
