//! CAN frames as the driver exchanges them.

use vstd::prelude::*;
use vstd::string::*;
use crate::text::{byte_list, hex_text, hex_upper, list_text};

verus! {

/// Largest payload a frame can carry, in bytes.
pub const MAX_PAYLOAD: u8 = 8;

/// Identifier carried by every frame the transmit command builds.
pub const TRANSMIT_ID: u32 = 0x1;

/// One CAN message.
#[derive(Clone, Copy, Debug, PartialEq, Eq)]
pub struct VciCanObj {
    pub id: u32,
    pub time_stamp: u32,
    pub time_flag: u8,
    pub send_type: u8,
    pub remote_flag: u8,
    pub extern_flag: u8,
    pub data_len: u8,
    pub data: [u8; 8],
    pub reserved: [u8; 3],
}

impl VciCanObj {
    /// The payload length fits the payload buffer.
    pub open spec fn well_formed(&self) -> bool {
        self.data_len <= MAX_PAYLOAD
    }

    /// Number of payload bytes that can be read: the declared length, held
    /// to the size of the buffer.
    pub open spec fn payload_len(&self) -> nat {
        if self.data_len <= MAX_PAYLOAD {
            self.data_len as nat
        } else {
            MAX_PAYLOAD as nat
        }
    }

    /// The meaningful payload bytes.
    pub open spec fn payload(&self) -> Seq<u8> {
        self.data@.subrange(0, self.payload_len() as int)
    }

    /// The frame is the data frame with identifier `id` and payload
    /// `payload`: the length is the payload's, the buffer holds the payload
    /// followed by zero padding, and every other field is zero.
    pub open spec fn carries(&self, id: u32, payload: Seq<u8>) -> bool {
        &&& payload.len() <= MAX_PAYLOAD
        &&& self.id == id
        &&& self.time_stamp == 0
        &&& self.time_flag == 0
        &&& self.send_type == 0
        &&& self.remote_flag == 0
        &&& self.extern_flag == 0
        &&& self.data_len == payload.len()
        &&& forall|i: int| 0 <= i < payload.len() ==> self.data[i] == payload[i]
        &&& forall|i: int| payload.len() <= i < 8 ==> self.data[i] == 0
        &&& forall|i: int| 0 <= i < 3 ==> self.reserved[i] == 0
    }

    /// The frame that carries one byte: identifier `TRANSMIT_ID`, length 1,
    /// the byte followed by zero padding, everything else zero.
    pub open spec fn spec_single_byte(byte: u8) -> VciCanObj {
        VciCanObj {
            id: TRANSMIT_ID,
            time_stamp: 0,
            time_flag: 0,
            send_type: 0,
            remote_flag: 0,
            extern_flag: 0,
            data_len: 1,
            data: [byte, 0, 0, 0, 0, 0, 0, 0],
            reserved: [0, 0, 0],
        }
    }

    /// The line that announces a received frame: the identifier in base 16
    /// and the payload as a list of bytes.
    pub open spec fn spec_announcement(&self) -> Seq<char> {
        "Received CAN message: ID=0x"@ + hex_text(self.id as nat) + ", Data="@ + list_text(
            self.payload(),
        )
    }

    /// Whether the payload length fits the payload buffer.
    pub fn is_well_formed(&self) -> (ok: bool)
        ensures
            ok == self.well_formed(),
    {
        self.data_len <= MAX_PAYLOAD
    }

    /// Builds the data frame with the given identifier and payload. There is
    /// none for a payload of more than `MAX_PAYLOAD` bytes.
    pub fn with_payload(id: u32, payload: &[u8]) -> (built: Option<VciCanObj>)
        ensures
            built is Some <==> payload@.len() <= MAX_PAYLOAD,
            built matches Some(frame) ==> {
                &&& frame.carries(id, payload@)
                &&& frame.well_formed()
                &&& frame.payload() == payload@
            },
    {
        if payload.len() > MAX_PAYLOAD as usize {
            return None;
        }
        let mut data: [u8; 8] = [0, 0, 0, 0, 0, 0, 0, 0];
        let mut i: usize = 0;
        while i < payload.len()
            invariant
                i <= payload.len() <= 8,
                forall|j: int| 0 <= j < i ==> data[j] == payload@[j],
                forall|j: int| i <= j < 8 ==> data[j] == 0,
            decreases payload.len() - i,
        {
            data[i] = payload[i];
            i = i + 1;
        }
        let frame = VciCanObj {
            id,
            time_stamp: 0,
            time_flag: 0,
            send_type: 0,
            remote_flag: 0,
            extern_flag: 0,
            data_len: payload.len() as u8,
            data,
            reserved: [0, 0, 0],
        };
        assert(frame.payload() =~= payload@);
        Some(frame)
    }

    /// Builds the frame that carries one byte.
    pub fn single_byte(byte: u8) -> (frame: VciCanObj)
        ensures
            frame == Self::spec_single_byte(byte),
            frame.carries(TRANSMIT_ID, seq![byte]),
            frame.well_formed(),
            frame.payload() == seq![byte],
    {
        let frame = VciCanObj {
            id: TRANSMIT_ID,
            time_stamp: 0,
            time_flag: 0,
            send_type: 0,
            remote_flag: 0,
            extern_flag: 0,
            data_len: 1,
            data: [byte, 0, 0, 0, 0, 0, 0, 0],
            reserved: [0, 0, 0],
        };
        assert(frame.payload() =~= seq![byte]);
        frame
    }

    /// Copies the meaningful payload bytes out of the frame. A declared
    /// length beyond the buffer is held to the buffer's size.
    pub fn payload_bytes(&self) -> (bytes: Vec<u8>)
        ensures
            bytes@ == self.payload(),
            self.well_formed() ==> bytes@ == self.data@.subrange(0, self.data_len as int),
    {
        let len: usize = if self.data_len <= MAX_PAYLOAD {
            self.data_len as usize
        } else {
            MAX_PAYLOAD as usize
        };
        let mut bytes: Vec<u8> = Vec::new();
        let mut i: usize = 0;
        while i < len
            invariant
                i <= len,
                len == self.payload_len(),
                len <= 8,
                bytes@ == self.data@.subrange(0, i as int),
            decreases len - i,
        {
            bytes.push(self.data[i]);
            assert(bytes@ =~= self.data@.subrange(0, i + 1));
            i = i + 1;
        }
        bytes
    }
}

impl VciCanObj {
    /// Writes the line that announces a received frame.
    pub fn announcement(&self) -> (text: String)
        ensures
            text@ == self.spec_announcement(),
    {
        let mut text = String::from_str("Received CAN message: ID=0x");
        text.append(hex_upper(self.id).as_str());
        text.append(", Data=");
        let payload = self.payload_bytes();
        text.append(byte_list(payload.as_slice()).as_str());
        text
    }
}

impl Default for VciCanObj {
    /// The all-zero frame.
    fn default() -> (frame: VciCanObj)
        ensures
            frame == (VciCanObj {
                id: 0,
                time_stamp: 0,
                time_flag: 0,
                send_type: 0,
                remote_flag: 0,
                extern_flag: 0,
                data_len: 0,
                data: [0, 0, 0, 0, 0, 0, 0, 0],
                reserved: [0, 0, 0],
            }),
    {
        VciCanObj {
            id: 0,
            time_stamp: 0,
            time_flag: 0,
            send_type: 0,
            remote_flag: 0,
            extern_flag: 0,
            data_len: 0,
            data: [0, 0, 0, 0, 0, 0, 0, 0],
            reserved: [0, 0, 0],
        }
    }
}

} // verus!
