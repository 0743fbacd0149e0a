//! The device session: at most one open device and the receive flag, and
//! what each command does to them.
//!
//! A command comes in two halves. The first decides, from the session alone,
//! whether the driver is called at all and with what; the second takes the
//! driver's reply and gives the command's result. The caller makes the call
//! in between.

use vstd::prelude::*;
use vstd::string::*;
use crate::config::VciInitConfig;
use crate::driver::{
    DriverRequest, ENUMERATE_CAPACITY, OPEN_RESERVED, POLL_INTERVAL, RECEIVE_CAPACITY,
    RECEIVE_TIMEOUT, status_ok, STATUS_OK,
};
use crate::error::CanError;
use crate::frame::VciCanObj;
use crate::text::{decimal, decimal_text};

verus! {

/// The one adapter that is open: its device type and its index.
#[derive(Clone, Copy, Debug, PartialEq, Eq, Structural)]
pub struct DeviceHandle {
    pub device_type: u32,
    pub device_index: u32,
}

/// What commands and the poll loop share.
#[derive(Clone, Copy, Debug, PartialEq, Eq)]
pub struct SessionState {
    /// The open device, if there is one.
    pub handle: Option<DeviceHandle>,
    /// Whether the poll loop is to keep running.
    pub receiving: bool,
}

/// The parameters a poll loop was started with.
#[derive(Clone, Copy, Debug, PartialEq, Eq, Structural)]
pub struct PollLoop {
    pub device_type: u32,
    pub device_index: u32,
    pub channel: u32,
}

/// What one iteration of the poll loop does before it sleeps.
#[derive(Clone, Copy, Debug, PartialEq, Eq)]
pub enum PollStep {
    /// Polling was stopped: leave the loop.
    Stop,
    /// No device is open: call nothing this time.
    Idle,
    /// Put this receive to the driver.
    Receive(DriverRequest),
}

impl PollStep {
    /// The pause that follows the step: the poll interval after every step
    /// that stays in the loop, whether or not the driver was called and
    /// whether or not a frame arrived; none after the step that leaves it.
    pub open spec fn spec_pause(self) -> Option<u64> {
        if self is Stop {
            None
        } else {
            Some(POLL_INTERVAL)
        }
    }

    /// Gives the pause that follows the step.
    pub fn pause(&self) -> (pause: Option<u64>)
        ensures
            pause == self.spec_pause(),
    {
        match self {
            PollStep::Stop => None,
            _ => Some(POLL_INTERVAL),
        }
    }
}

impl SessionState {
    /// The session before anything was opened.
    pub open spec fn empty() -> SessionState {
        SessionState { handle: None, receiving: false }
    }

    /// A request passes only while a device is open.
    pub open spec fn guard(self, request: DriverRequest) -> Result<DriverRequest, CanError> {
        if self.handle is Some {
            Ok(request)
        } else {
            Err(CanError::NotInitialized)
        }
    }

    /// The session after an open that the driver answered with `status`:
    /// success installs the handle in place of any other, failure changes
    /// nothing.
    pub open spec fn after_open(self, handle: DeviceHandle, status: i32) -> SessionState {
        if status_ok(status) {
            SessionState { handle: Some(handle), receiving: self.receiving }
        } else {
            self
        }
    }

    /// The close that is owed once `handle` has been installed: that of the
    /// device it replaced, unless both are the same device.
    pub open spec fn superseded(self, handle: DeviceHandle) -> Option<DriverRequest> {
        match self.handle {
            Some(prior) if prior != handle => Some(
                DriverRequest::Close {
                    device_type: prior.device_type,
                    device_index: prior.device_index,
                },
            ),
            _ => None,
        }
    }

    /// The close of the device that is open, if one is.
    pub open spec fn closing(self) -> Option<DriverRequest> {
        match self.handle {
            Some(open) => Some(
                DriverRequest::Close {
                    device_type: open.device_type,
                    device_index: open.device_index,
                },
            ),
            None => None,
        }
    }

    /// The session with the handle slot cleared.
    pub open spec fn after_close(self) -> SessionState {
        SessionState { handle: None, receiving: self.receiving }
    }

    /// The session with the receive flag set as given.
    pub open spec fn with_receiving(self, receiving: bool) -> SessionState {
        SessionState { handle: self.handle, receiving }
    }

    /// The loop a start of polling spawns: none while polling is on.
    pub open spec fn spawned(self, poll: PollLoop) -> Option<PollLoop> {
        if self.receiving {
            None
        } else {
            Some(poll)
        }
    }

    /// What an iteration of the poll loop does in this session.
    pub open spec fn spec_poll_step(self, poll: PollLoop) -> PollStep {
        if !self.receiving {
            PollStep::Stop
        } else if self.handle is Some {
            PollStep::Receive(
                DriverRequest::Receive {
                    device_type: poll.device_type,
                    device_index: poll.device_index,
                    channel: poll.channel,
                    capacity: RECEIVE_CAPACITY,
                    timeout: RECEIVE_TIMEOUT,
                },
            )
        } else {
            PollStep::Idle
        }
    }

    /// Creates the session before anything was opened.
    pub fn new() -> (session: SessionState)
        ensures
            session == Self::empty(),
    {
        SessionState { handle: None, receiving: false }
    }

    /// Whether a device is open.
    pub fn is_open(&self) -> (open: bool)
        ensures
            open == (self.handle is Some),
    {
        self.handle.is_some()
    }

    /// The request that opens a device. It needs no open device, and is put
    /// to a freshly loaded binding.
    pub fn open_request(device_type: u32, device_index: u32) -> (request: DriverRequest)
        ensures
            request == (DriverRequest::Open { device_type, device_index, reserved: OPEN_RESERVED }),
    {
        DriverRequest::Open { device_type, device_index, reserved: OPEN_RESERVED }
    }

    /// Takes the status of an open. On success the device becomes the
    /// session's handle and the result names the close that is owed for the
    /// device it replaced, if it replaced another one. On any other status
    /// the command fails with `OpenFailed` and the session stays as it was.
    pub fn complete_open(&mut self, device_type: u32, device_index: u32, status: i32) -> (outcome:
        Result<Option<DriverRequest>, CanError>)
        ensures
            *final(self) == old(self).after_open(DeviceHandle { device_type, device_index }, status),
            status_ok(status) ==> outcome == Ok::<Option<DriverRequest>, CanError>(
                old(self).superseded(DeviceHandle { device_type, device_index }),
            ),
            !status_ok(status) ==> outcome == Err::<Option<DriverRequest>, CanError>(
                CanError::OpenFailed,
            ),
    {
        if status != STATUS_OK {
            return Err(CanError::OpenFailed);
        }
        let handle = DeviceHandle { device_type, device_index };
        let owed = match self.handle {
            Some(prior) => {
                if prior.device_type != device_type || prior.device_index != device_index {
                    Some(
                        DriverRequest::Close {
                            device_type: prior.device_type,
                            device_index: prior.device_index,
                        },
                    )
                } else {
                    None
                }
            },
            None => None,
        };
        self.handle = Some(handle);
        Ok(owed)
    }

    /// Closes the device. Without an open device the command fails with
    /// `NotInitialized` and asks nothing of the driver. Otherwise the handle
    /// slot is cleared and the result is the close to put to the driver;
    /// whatever the driver answers, the device counts as closed.
    pub fn close(&mut self, device_type: u32, device_index: u32) -> (outcome: Result<
        DriverRequest,
        CanError,
    >)
        ensures
            outcome == old(self).guard(DriverRequest::Close { device_type, device_index }),
            *final(self) == old(self).after_close(),
    {
        if self.handle.is_none() {
            return Err(CanError::NotInitialized);
        }
        self.handle = None;
        Ok(DriverRequest::Close { device_type, device_index })
    }

    /// Decides a transmit of one byte: `NotInitialized` without an open
    /// device, and then the driver is not called; otherwise the transmit of
    /// the single frame built from the byte.
    pub fn transmit(&self, data: u8, device_type: u32, device_index: u32, channel: u32) -> (outcome:
        Result<DriverRequest, CanError>)
        ensures
            outcome == self.guard(
                DriverRequest::Transmit {
                    device_type,
                    device_index,
                    channel,
                    frame: VciCanObj::spec_single_byte(data),
                },
            ),
    {
        self.transmit_frame(VciCanObj::single_byte(data), device_type, device_index, channel)
    }

    /// Decides a transmit of one frame: `NotInitialized` without an open
    /// device; otherwise the frame goes to the driver as it is.
    pub fn transmit_frame(
        &self,
        frame: VciCanObj,
        device_type: u32,
        device_index: u32,
        channel: u32,
    ) -> (outcome: Result<DriverRequest, CanError>)
        requires
            frame.well_formed(),
        ensures
            outcome == self.guard(
                DriverRequest::Transmit { device_type, device_index, channel, frame },
            ),
    {
        if self.handle.is_none() {
            return Err(CanError::NotInitialized);
        }
        Ok(DriverRequest::Transmit { device_type, device_index, channel, frame })
    }

    /// Decides a single receive: `NotInitialized` without an open device,
    /// and then the driver is not called; otherwise a receive of at most one
    /// frame with the bounded wait.
    pub fn receive_once(&self, device_type: u32, device_index: u32, channel: u32) -> (outcome:
        Result<DriverRequest, CanError>)
        ensures
            outcome == self.guard(
                DriverRequest::Receive {
                    device_type,
                    device_index,
                    channel,
                    capacity: RECEIVE_CAPACITY,
                    timeout: RECEIVE_TIMEOUT,
                },
            ),
    {
        if self.handle.is_none() {
            return Err(CanError::NotInitialized);
        }
        Ok(
            DriverRequest::Receive {
                device_type,
                device_index,
                channel,
                capacity: RECEIVE_CAPACITY,
                timeout: RECEIVE_TIMEOUT,
            },
        )
    }

    /// Decides a change of bit timing on one channel: `NotInitialized`
    /// without an open device; otherwise the initialisation of the channel
    /// with the standard configuration for the two timing bytes. The channel
    /// is not started.
    pub fn reconfigure(
        &self,
        device_type: u32,
        device_index: u32,
        channel: u32,
        timing0: u8,
        timing1: u8,
    ) -> (outcome: Result<DriverRequest, CanError>)
        ensures
            outcome == self.guard(
                DriverRequest::InitChannel {
                    device_type,
                    device_index,
                    channel,
                    config: VciInitConfig::spec_with_timing(timing0, timing1),
                },
            ),
    {
        if self.handle.is_none() {
            return Err(CanError::NotInitialized);
        }
        Ok(
            DriverRequest::InitChannel {
                device_type,
                device_index,
                channel,
                config: VciInitConfig::with_timing(timing0, timing1),
            },
        )
    }

    /// Decides an enumeration of the attached boards: `NotInitialized`
    /// without an open device; otherwise the enumerate call into a buffer of
    /// `ENUMERATE_CAPACITY` entries.
    pub fn enumerate(&self) -> (outcome: Result<DriverRequest, CanError>)
        ensures
            outcome == self.guard(DriverRequest::Enumerate { capacity: ENUMERATE_CAPACITY }),
    {
        if self.handle.is_none() {
            return Err(CanError::NotInitialized);
        }
        Ok(DriverRequest::Enumerate { capacity: ENUMERATE_CAPACITY })
    }

    /// Decides a read of one board's information: `NotInitialized` without
    /// an open device; otherwise the read call.
    pub fn read_board_info(&self, device_type: u32, device_index: u32) -> (outcome: Result<
        DriverRequest,
        CanError,
    >)
        ensures
            outcome == self.guard(DriverRequest::ReadBoardInfo { device_type, device_index }),
    {
        if self.handle.is_none() {
            return Err(CanError::NotInitialized);
        }
        Ok(DriverRequest::ReadBoardInfo { device_type, device_index })
    }

    /// Turns polling on. The result is the loop to spawn, and is `None` when
    /// polling was on already: a second start spawns nothing.
    pub fn start_polling(&mut self, device_type: u32, device_index: u32, channel: u32) -> (spawn:
        Option<PollLoop>)
        ensures
            *final(self) == old(self).with_receiving(true),
            spawn == old(self).spawned(PollLoop { device_type, device_index, channel }),
    {
        if self.receiving {
            return None;
        }
        self.receiving = true;
        Some(PollLoop { device_type, device_index, channel })
    }

    /// Turns polling off. The loop sees it at its next iteration.
    pub fn stop_polling(&mut self)
        ensures
            *final(self) == old(self).with_receiving(false),
    {
        self.receiving = false;
    }

    /// Decides one iteration of the poll loop, from the session as it is
    /// now: the loop keeps no handle of its own.
    pub fn poll_step(&self, poll: &PollLoop) -> (step: PollStep)
        ensures
            step == self.spec_poll_step(*poll),
    {
        if !self.receiving {
            PollStep::Stop
        } else if self.handle.is_some() {
            PollStep::Receive(
                DriverRequest::Receive {
                    device_type: poll.device_type,
                    device_index: poll.device_index,
                    channel: poll.channel,
                    capacity: RECEIVE_CAPACITY,
                    timeout: RECEIVE_TIMEOUT,
                },
            )
        } else {
            PollStep::Idle
        }
    }
}

/// Result of a transmit of one byte, from the count of frames the driver
/// says it sent: the byte itself when at least one frame went out,
/// `TransmitFailed` otherwise.
pub open spec fn transmitted(data: u8, sent: i32) -> Result<u8, CanError> {
    if sent > 0 {
        Ok(data)
    } else {
        Err(CanError::TransmitFailed)
    }
}

/// Result of a receive, from the count of frames the driver says it
/// delivered and the frame in the buffer: the frame, untouched, when at
/// least one arrived, `NoFrameAvailable` otherwise.
pub open spec fn received(count: i32, frame: VciCanObj) -> Result<VciCanObj, CanError> {
    if count > 0 {
        Ok(frame)
    } else {
        Err(CanError::NoFrameAvailable)
    }
}

/// Gives the result of a transmit of one byte, from the count of frames the
/// driver says it sent. A count of zero or less is a failure.
pub fn transmit_outcome(data: u8, sent: i32) -> (outcome: Result<u8, CanError>)
    ensures
        outcome == transmitted(data, sent),
{
    if sent > 0 {
        Ok(data)
    } else {
        Err(CanError::TransmitFailed)
    }
}

/// The line that confirms a transmit: the byte in base 10.
pub open spec fn spec_sent_message(data: u8) -> Seq<char> {
    "Sent data: "@ + decimal_text(data as nat)
}

/// Writes the line that confirms a transmit.
pub fn sent_message(data: u8) -> (text: String)
    ensures
        text@ == spec_sent_message(data),
{
    let mut text = String::from_str("Sent data: ");
    text.append(decimal(data as u32).as_str());
    text
}

/// What an iteration of the poll loop forwards to the frame sink: the
/// announcement of the frame if one arrived, nothing otherwise. An empty
/// receive is passed over in silence.
pub open spec fn spec_poll_delivery(count: i32, frame: VciCanObj) -> Option<Seq<char>> {
    match received(count, frame) {
        Ok(arrived) => Some(arrived.spec_announcement()),
        Err(_) => None,
    }
}

/// Gives what an iteration of the poll loop forwards to the frame sink.
pub fn poll_delivery(count: i32, frame: VciCanObj) -> (line: Option<String>)
    ensures
        line is Some <==> spec_poll_delivery(count, frame) is Some,
        line matches Some(text) ==> Some(text@) == spec_poll_delivery(count, frame),
{
    match receive_outcome(count, frame) {
        Ok(arrived) => Some(arrived.announcement()),
        Err(_) => None,
    }
}

/// Gives the result of a receive, from the count of frames the driver says
/// it delivered and the frame in the buffer. A count of zero or less means
/// that no frame arrived, which is no fault.
pub fn receive_outcome(count: i32, frame: VciCanObj) -> (outcome: Result<VciCanObj, CanError>)
    ensures
        outcome == received(count, frame),
{
    if count > 0 {
        Ok(frame)
    } else {
        Err(CanError::NoFrameAvailable)
    }
}

/// Result of a change of bit timing, from the status of the channel's
/// initialisation: `InitFailed` with the channel on any status but success.
pub fn reconfigure_outcome(channel: u32, status: i32) -> (outcome: Result<(), CanError>)
    ensures
        status_ok(status) ==> outcome == Ok::<(), CanError>(()),
        !status_ok(status) ==> outcome == Err::<(), CanError>(CanError::InitFailed(channel)),
{
    if status == STATUS_OK {
        Ok(())
    } else {
        Err(CanError::InitFailed(channel))
    }
}

} // verus!
