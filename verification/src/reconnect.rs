//! Reconnecting: close what is open, load the driver afresh, open the
//! device, initialise and start both channels, and only then install the new
//! handle. Each step can fail, and the first failure ends the procedure. A
//! device that was opened and could not be brought up is closed again.
//!
//! The procedure is a machine that is fed the driver's replies one by one.
//! `Reconnect::request` says what to put to the driver next,
//! `Reconnect::advance` takes the reply, `Reconnect::finish` installs the
//! handle if every step passed.

use vstd::prelude::*;
use vstd::string::*;
use crate::config::VciInitConfig;
use crate::driver::{DriverReply, DriverRequest, OPEN_RESERVED, status_ok, STATUS_OK};
use crate::error::CanError;
use crate::session::{DeviceHandle, SessionState};
use crate::text::{hex_text, hex_upper};

verus! {

/// Number of steps that have to pass: load, open, two initialisations, two
/// starts.
pub const RECONNECT_STEPS: usize = 6;

/// What a reconnect was asked to do.
#[derive(Clone, Copy, Debug, PartialEq, Eq, Structural)]
pub struct ReconnectParams {
    pub device_type: u32,
    pub device_index: u32,
    pub channel_a: u32,
    pub channel_b: u32,
    pub timing0: u8,
    pub timing1: u8,
}

/// Where a reconnect stands.
#[derive(Clone, Copy, Debug, PartialEq, Eq, Structural)]
pub enum ReconnectStage {
    /// The driver module is to be loaded.
    Load,
    /// The device is to be opened.
    Open,
    /// The first channel is to be initialised.
    InitA,
    /// The second channel is to be initialised.
    InitB,
    /// The first channel is to be started.
    StartA,
    /// The second channel is to be started.
    StartB,
    /// A step after the open failed: the device that was opened is to be
    /// closed again before the failure is reported.
    Abandon(CanError),
    /// The reconnect failed.
    Failed(CanError),
    /// Every step passed.
    Complete,
}

/// A reconnect under way.
#[derive(Clone, Copy, Debug, PartialEq, Eq, Structural)]
pub struct Reconnect {
    pub params: ReconnectParams,
    pub stage: ReconnectStage,
}

/// What a reconnect that passed reports: the bit timing now in force.
#[derive(Clone, Copy, Debug, PartialEq, Eq, Structural)]
pub struct ReconnectSummary {
    pub timing0: u8,
    pub timing1: u8,
}

impl ReconnectSummary {
    /// The summary in words, the timing bytes in base 16.
    pub open spec fn spec_message(self) -> Seq<char> {
        "Device reconnected with new baud: Timing0 = 0x"@ + hex_text(self.timing0 as nat)
            + ", Timing1 = 0x"@ + hex_text(self.timing1 as nat)
    }

    /// Puts the summary in words.
    pub fn message(&self) -> (text: String)
        ensures
            text@ == self.spec_message(),
    {
        let mut text = String::from_str("Device reconnected with new baud: Timing0 = 0x");
        text.append(hex_upper(self.timing0 as u32).as_str());
        text.append(", Timing1 = 0x");
        text.append(hex_upper(self.timing1 as u32).as_str());
        text
    }
}

impl ReconnectParams {
    /// The device the reconnect opens.
    pub open spec fn handle(self) -> DeviceHandle {
        DeviceHandle { device_type: self.device_type, device_index: self.device_index }
    }

    /// The configuration both channels are initialised with.
    pub open spec fn config(self) -> VciInitConfig {
        VciInitConfig::spec_with_timing(self.timing0, self.timing1)
    }

    /// What a reconnect that passed reports.
    pub open spec fn summary(self) -> ReconnectSummary {
        ReconnectSummary { timing0: self.timing0, timing1: self.timing1 }
    }

    /// The failure that is reported when step `step` is the first not to
    /// pass, the steps counted from 0 in their order.
    pub open spec fn step_error(self, step: int) -> CanError {
        if step <= 0 {
            CanError::DriverLoadFailed
        } else if step == 1 {
            CanError::OpenFailed
        } else if step == 2 {
            CanError::InitFailed(self.channel_a)
        } else if step == 3 {
            CanError::InitFailed(self.channel_b)
        } else if step == 4 {
            CanError::StartFailed(self.channel_a)
        } else {
            CanError::StartFailed(self.channel_b)
        }
    }

    /// The result of a reconnect of which the first `passed` steps passed
    /// and no more.
    pub open spec fn outcome_after(self, passed: int) -> Result<ReconnectSummary, CanError> {
        if passed >= RECONNECT_STEPS {
            Ok(self.summary())
        } else {
            Err(self.step_error(passed))
        }
    }
}

/// Whether `reply` lets step `step` pass: the load needs a complete binding,
/// every later step the status of success. A reply of the wrong kind does
/// not pass.
pub open spec fn step_passes(step: int, reply: DriverReply) -> bool {
    if step <= 0 {
        reply == DriverReply::Loaded(true)
    } else {
        reply matches DriverReply::Status(status) && status_ok(status)
    }
}

/// Number of steps that pass on `replies`, from step `step` on: the replies
/// are taken in order until one does not pass or the last step is through.
pub open spec fn passed_steps(step: int, replies: Seq<DriverReply>) -> int
    decreases replies.len(),
{
    if step >= RECONNECT_STEPS || replies.len() == 0 || !step_passes(step, replies[0]) {
        0
    } else {
        1 + passed_steps(step + 1, replies.drop_first())
    }
}

impl Reconnect {
    /// The machine as it starts: the driver is to be loaded.
    pub open spec fn initial(params: ReconnectParams) -> Reconnect {
        Reconnect { params, stage: ReconnectStage::Load }
    }

    /// Number of the step the machine is waiting on, if it is waiting on one
    /// of the steps that have to pass.
    pub open spec fn step(self) -> Option<int> {
        match self.stage {
            ReconnectStage::Load => Some(0),
            ReconnectStage::Open => Some(1),
            ReconnectStage::InitA => Some(2),
            ReconnectStage::InitB => Some(3),
            ReconnectStage::StartA => Some(4),
            ReconnectStage::StartB => Some(5),
            _ => None,
        }
    }

    /// What is to be put to the driver at this stage; nothing once the
    /// machine has ended.
    pub open spec fn spec_request(self) -> Option<DriverRequest> {
        let p = self.params;
        match self.stage {
            ReconnectStage::Load => Some(DriverRequest::LoadBinding),
            ReconnectStage::Open => Some(
                DriverRequest::Open {
                    device_type: p.device_type,
                    device_index: p.device_index,
                    reserved: OPEN_RESERVED,
                },
            ),
            ReconnectStage::InitA => Some(
                DriverRequest::InitChannel {
                    device_type: p.device_type,
                    device_index: p.device_index,
                    channel: p.channel_a,
                    config: p.config(),
                },
            ),
            ReconnectStage::InitB => Some(
                DriverRequest::InitChannel {
                    device_type: p.device_type,
                    device_index: p.device_index,
                    channel: p.channel_b,
                    config: p.config(),
                },
            ),
            ReconnectStage::StartA => Some(
                DriverRequest::StartChannel {
                    device_type: p.device_type,
                    device_index: p.device_index,
                    channel: p.channel_a,
                },
            ),
            ReconnectStage::StartB => Some(
                DriverRequest::StartChannel {
                    device_type: p.device_type,
                    device_index: p.device_index,
                    channel: p.channel_b,
                },
            ),
            ReconnectStage::Abandon(_) => Some(
                DriverRequest::Close { device_type: p.device_type, device_index: p.device_index },
            ),
            ReconnectStage::Failed(_) => None,
            ReconnectStage::Complete => None,
        }
    }

    /// The machine has ended: it asks nothing more of the driver.
    pub open spec fn finished(self) -> bool {
        self.stage is Failed || self.stage is Complete
    }

    /// The stage in which step `step` is waited on; past the last step the
    /// reconnect is complete.
    pub open spec fn stage_of(step: int) -> ReconnectStage {
        if step <= 0 {
            ReconnectStage::Load
        } else if step == 1 {
            ReconnectStage::Open
        } else if step == 2 {
            ReconnectStage::InitA
        } else if step == 3 {
            ReconnectStage::InitB
        } else if step == 4 {
            ReconnectStage::StartA
        } else if step == 5 {
            ReconnectStage::StartB
        } else {
            ReconnectStage::Complete
        }
    }

    /// The machine after `reply`.
    ///
    /// A step that passes leads to the next one, the last to `Complete`. A
    /// step that does not pass ends the machine with that step's failure:
    /// at once while no device is open, and by way of `Abandon` once one is.
    /// `Abandon` ends on any reply, and an ended machine stays as it is.
    pub open spec fn spec_advance(self, reply: DriverReply) -> Reconnect {
        let stage = match self.step() {
            Some(step) => if step_passes(step, reply) {
                Self::stage_of(step + 1)
            } else if step <= 1 {
                ReconnectStage::Failed(self.params.step_error(step))
            } else {
                ReconnectStage::Abandon(self.params.step_error(step))
            },
            None => match self.stage {
                ReconnectStage::Abandon(error) => ReconnectStage::Failed(error),
                ended => ended,
            },
        };
        Reconnect { params: self.params, stage }
    }

    /// The machine after a run of replies.
    pub open spec fn run(self, replies: Seq<DriverReply>) -> Reconnect
        decreases replies.len(),
    {
        if replies.len() == 0 {
            self
        } else {
            self.spec_advance(replies[0]).run(replies.drop_first())
        }
    }

    /// What the reconnect comes to if it is ended now. A machine that is
    /// still waiting on a step counts as failed at that step.
    pub open spec fn spec_outcome(self) -> Result<ReconnectSummary, CanError> {
        match self.stage {
            ReconnectStage::Complete => Ok(self.params.summary()),
            ReconnectStage::Abandon(error) => Err(error),
            ReconnectStage::Failed(error) => Err(error),
            _ => Err(self.params.step_error(self.step().unwrap())),
        }
    }

    /// The session once the reconnect is ended in it: the new handle is
    /// installed if every step passed, and nothing is touched otherwise.
    pub open spec fn spec_finish(self, session: SessionState) -> SessionState {
        if self.spec_outcome() is Ok {
            session.after_open(self.params.handle(), STATUS_OK)
        } else {
            session
        }
    }

    /// Starts a reconnect. The handle slot is cleared at once, whether or
    /// not the reconnect will pass. The second result is the close to put to
    /// the driver for the device that was open, if one was; its status is
    /// not looked at.
    pub fn begin(session: &mut SessionState, params: ReconnectParams) -> (started: (
        Reconnect,
        Option<DriverRequest>,
    ))
        ensures
            *final(session) == old(session).after_close(),
            started.0 == Self::initial(params),
            started.1 == old(session).closing(),
    {
        let close = match session.handle {
            Some(open) => Some(
                DriverRequest::Close {
                    device_type: open.device_type,
                    device_index: open.device_index,
                },
            ),
            None => None,
        };
        session.handle = None;
        (Reconnect { params, stage: ReconnectStage::Load }, close)
    }

    /// What is to be put to the driver next; `None` once the machine has
    /// ended.
    pub fn request(&self) -> (request: Option<DriverRequest>)
        ensures
            request == self.spec_request(),
            request is None <==> self.finished(),
    {
        let p = &self.params;
        match self.stage {
            ReconnectStage::Load => Some(DriverRequest::LoadBinding),
            ReconnectStage::Open => Some(
                DriverRequest::Open {
                    device_type: p.device_type,
                    device_index: p.device_index,
                    reserved: OPEN_RESERVED,
                },
            ),
            ReconnectStage::InitA => Some(
                DriverRequest::InitChannel {
                    device_type: p.device_type,
                    device_index: p.device_index,
                    channel: p.channel_a,
                    config: VciInitConfig::with_timing(p.timing0, p.timing1),
                },
            ),
            ReconnectStage::InitB => Some(
                DriverRequest::InitChannel {
                    device_type: p.device_type,
                    device_index: p.device_index,
                    channel: p.channel_b,
                    config: VciInitConfig::with_timing(p.timing0, p.timing1),
                },
            ),
            ReconnectStage::StartA => Some(
                DriverRequest::StartChannel {
                    device_type: p.device_type,
                    device_index: p.device_index,
                    channel: p.channel_a,
                },
            ),
            ReconnectStage::StartB => Some(
                DriverRequest::StartChannel {
                    device_type: p.device_type,
                    device_index: p.device_index,
                    channel: p.channel_b,
                },
            ),
            ReconnectStage::Abandon(_) => Some(
                DriverRequest::Close { device_type: p.device_type, device_index: p.device_index },
            ),
            ReconnectStage::Failed(_) => None,
            ReconnectStage::Complete => None,
        }
    }

    /// Takes the driver's reply to the request of this stage and moves on.
    pub fn advance(&mut self, reply: DriverReply)
        ensures
            *final(self) == old(self).spec_advance(reply),
    {
        let passed = match (self.stage, reply) {
            (ReconnectStage::Load, DriverReply::Loaded(complete)) => complete,
            (ReconnectStage::Load, DriverReply::Status(_)) => false,
            (_, DriverReply::Status(status)) => status == STATUS_OK,
            (_, DriverReply::Loaded(_)) => false,
        };
        let p = self.params;
        let next = match self.stage {
            ReconnectStage::Load => if passed {
                ReconnectStage::Open
            } else {
                ReconnectStage::Failed(CanError::DriverLoadFailed)
            },
            ReconnectStage::Open => if passed {
                ReconnectStage::InitA
            } else {
                ReconnectStage::Failed(CanError::OpenFailed)
            },
            ReconnectStage::InitA => if passed {
                ReconnectStage::InitB
            } else {
                ReconnectStage::Abandon(CanError::InitFailed(p.channel_a))
            },
            ReconnectStage::InitB => if passed {
                ReconnectStage::StartA
            } else {
                ReconnectStage::Abandon(CanError::InitFailed(p.channel_b))
            },
            ReconnectStage::StartA => if passed {
                ReconnectStage::StartB
            } else {
                ReconnectStage::Abandon(CanError::StartFailed(p.channel_a))
            },
            ReconnectStage::StartB => if passed {
                ReconnectStage::Complete
            } else {
                ReconnectStage::Abandon(CanError::StartFailed(p.channel_b))
            },
            ReconnectStage::Abandon(error) => ReconnectStage::Failed(error),
            ReconnectStage::Failed(error) => ReconnectStage::Failed(error),
            ReconnectStage::Complete => ReconnectStage::Complete,
        };
        self.stage = next;
    }

    /// What the reconnect comes to if it is ended now.
    pub fn outcome(&self) -> (outcome: Result<ReconnectSummary, CanError>)
        ensures
            outcome == self.spec_outcome(),
    {
        let p = &self.params;
        match self.stage {
            ReconnectStage::Load => Err(CanError::DriverLoadFailed),
            ReconnectStage::Open => Err(CanError::OpenFailed),
            ReconnectStage::InitA => Err(CanError::InitFailed(p.channel_a)),
            ReconnectStage::InitB => Err(CanError::InitFailed(p.channel_b)),
            ReconnectStage::StartA => Err(CanError::StartFailed(p.channel_a)),
            ReconnectStage::StartB => Err(CanError::StartFailed(p.channel_b)),
            ReconnectStage::Abandon(error) => Err(error),
            ReconnectStage::Failed(error) => Err(error),
            ReconnectStage::Complete => Ok(
                ReconnectSummary { timing0: p.timing0, timing1: p.timing1 },
            ),
        }
    }

    /// Ends the reconnect in the session. If every step passed, the new
    /// handle is installed and the summary returned. Otherwise the session
    /// is left as it is, without the handle, and the failure of the first
    /// step that did not pass is returned.
    pub fn finish(&self, session: &mut SessionState) -> (outcome: Result<
        ReconnectSummary,
        CanError,
    >)
        ensures
            outcome == self.spec_outcome(),
            *final(session) == self.spec_finish(*old(session)),
    {
        let outcome = self.outcome();
        if outcome.is_ok() {
            session.handle = Some(
                DeviceHandle {
                    device_type: self.params.device_type,
                    device_index: self.params.device_index,
                },
            );
        }
        outcome
    }
}

} // verus!
