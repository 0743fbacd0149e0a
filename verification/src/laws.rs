//! What holds across commands: how the handle slot follows the history of
//! opens, closes and reconnects, how a reconnect ends, that polling is
//! started once and stopped for good, and that a frame survives the way out
//! and back.

use vstd::prelude::*;
use crate::driver::{DriverReply, DriverRequest, status_ok, STATUS_OK};
use crate::error::CanError;
use crate::frame::VciCanObj;
use crate::reconnect::{
    passed_steps, Reconnect, ReconnectParams, ReconnectStage, RECONNECT_STEPS, step_passes,
};
use crate::session::{DeviceHandle, PollLoop, PollStep, received, SessionState};

verus! {

/// The stage a reconnect stands at once `fed` replies have been taken, of
/// which the first `passed` let their steps pass and, if there are more, the
/// next one did not.
///
/// While every reply passed, the machine waits on the next step. After the
/// reply that did not pass it has failed at that step; if a device was open
/// by then, the one reply after it is the answer to the close of that
/// device.
pub open spec fn stage_after(params: ReconnectParams, passed: int, fed: int) -> ReconnectStage {
    if passed >= RECONNECT_STEPS {
        ReconnectStage::Complete
    } else if passed == fed {
        Reconnect::stage_of(passed)
    } else if passed <= 1 || fed > passed + 1 {
        ReconnectStage::Failed(params.step_error(passed))
    } else {
        ReconnectStage::Abandon(params.step_error(passed))
    }
}

proof fn lemma_ended_stays(machine: Reconnect, replies: Seq<DriverReply>)
    requires
        machine.finished(),
    ensures
        machine.run(replies) == machine,
    decreases replies.len(),
{
    if replies.len() > 0 {
        lemma_ended_stays(machine.spec_advance(replies[0]), replies.drop_first());
    }
}

proof fn lemma_run_from(params: ReconnectParams, step: int, replies: Seq<DriverReply>)
    requires
        0 <= step <= RECONNECT_STEPS,
    ensures
        (Reconnect { params, stage: Reconnect::stage_of(step) }).run(replies).params == params,
        (Reconnect { params, stage: Reconnect::stage_of(step) }).run(replies).stage == stage_after(
            params,
            step + passed_steps(step, replies),
            step + replies.len(),
        ),
        0 <= passed_steps(step, replies) <= RECONNECT_STEPS - step,
        passed_steps(step, replies) <= replies.len(),
    decreases replies.len(),
{
    let machine = Reconnect { params, stage: Reconnect::stage_of(step) };
    if replies.len() == 0 {
    } else if step >= RECONNECT_STEPS {
        lemma_ended_stays(machine, replies);
    } else {
        let next = machine.spec_advance(replies[0]);
        let rest = replies.drop_first();
        if step_passes(step, replies[0]) {
            lemma_run_from(params, step + 1, rest);
        } else if step <= 1 {
            lemma_ended_stays(next, rest);
        } else if rest.len() > 0 {
            lemma_ended_stays(next.spec_advance(rest[0]), rest.drop_first());
        }
    }
}

/// How a reconnect stands after any run of replies: it has passed as many
/// steps as leading replies let pass, and stands where `stage_after` says.
pub proof fn lemma_reconnect_stage(params: ReconnectParams, replies: Seq<DriverReply>)
    ensures
        Reconnect::initial(params).run(replies).params == params,
        Reconnect::initial(params).run(replies).stage == stage_after(
            params,
            passed_steps(0, replies),
            replies.len() as int,
        ),
        0 <= passed_steps(0, replies) <= RECONNECT_STEPS,
        passed_steps(0, replies) <= replies.len(),
{
    lemma_run_from(params, 0, replies);
}

/// A reconnect passes exactly when each of its six steps passes, and fails
/// with the failure of the first step that does not: a failed load with
/// `DriverLoadFailed`, a failed open with `OpenFailed`, a failed
/// initialisation or start with `InitFailed` or `StartFailed` and the
/// channel.
pub proof fn lemma_reconnect_outcome(params: ReconnectParams, replies: Seq<DriverReply>)
    ensures
        Reconnect::initial(params).run(replies).spec_outcome() == params.outcome_after(
            passed_steps(0, replies),
        ),
        Reconnect::initial(params).run(replies).spec_outcome() is Ok <==> passed_steps(0, replies)
            == RECONNECT_STEPS,
{
    lemma_reconnect_stage(params, replies);
}

/// A reconnect has ended once seven replies were taken: six steps and, at
/// most, the close of a device that was opened in vain.
pub proof fn lemma_reconnect_ends(params: ReconnectParams, replies: Seq<DriverReply>)
    requires
        replies.len() > RECONNECT_STEPS,
    ensures
        Reconnect::initial(params).run(replies).finished(),
        Reconnect::initial(params).run(replies).spec_request() is None,
{
    lemma_reconnect_stage(params, replies);
}

/// A device that a reconnect opened and could not bring up is closed again:
/// right after the reply that failed an initialisation or a start, the
/// machine asks for the close of that device, and for nothing else before it
/// ends.
pub proof fn lemma_reconnect_abandons_opened_device(
    params: ReconnectParams,
    replies: Seq<DriverReply>,
)
    requires
        2 <= passed_steps(0, replies) < RECONNECT_STEPS,
        replies.len() == passed_steps(0, replies) + 1,
    ensures
        Reconnect::initial(params).run(replies).spec_request() == Some(
            DriverRequest::Close {
                device_type: params.device_type,
                device_index: params.device_index,
            },
        ),
        forall|reply: DriverReply|
            Reconnect::initial(params).run(replies).spec_advance(reply).finished(),
{
    lemma_reconnect_stage(params, replies);
}

/// A reconnect that does not pass installs nothing: the handle slot, which
/// was cleared when the reconnect began, is still empty when it has ended,
/// whatever step failed.
pub proof fn lemma_failed_reconnect_leaves_no_handle(
    session: SessionState,
    params: ReconnectParams,
    replies: Seq<DriverReply>,
)
    requires
        passed_steps(0, replies) != RECONNECT_STEPS,
    ensures
        session.after_close().handle is None,
        Reconnect::initial(params).run(replies).spec_outcome() is Err,
        Reconnect::initial(params).run(replies).spec_finish(session.after_close())
            == session.after_close(),
{
    lemma_reconnect_outcome(params, replies);
}

/// A reconnect whose second initialisation fails, after load, open and the
/// first initialisation passed, reports `InitFailed` with the second channel
/// and leaves the session without a handle, whatever the driver answers
/// after that.
pub proof fn lemma_second_init_failure(
    session: SessionState,
    params: ReconnectParams,
    status: i32,
    later: Seq<DriverReply>,
)
    requires
        !status_ok(status),
    ensures
        ({
            let replies = seq![
                DriverReply::Loaded(true),
                DriverReply::Status(STATUS_OK),
                DriverReply::Status(STATUS_OK),
                DriverReply::Status(status),
            ] + later;
            let ended = Reconnect::initial(params).run(replies);
            &&& ended.spec_outcome() == Err::<crate::reconnect::ReconnectSummary, CanError>(
                CanError::InitFailed(params.channel_b),
            )
            &&& session.after_close().handle is None
            &&& ended.spec_finish(session.after_close()).handle is None
        }),
{
    let replies = seq![
        DriverReply::Loaded(true),
        DriverReply::Status(STATUS_OK),
        DriverReply::Status(STATUS_OK),
        DriverReply::Status(status),
    ] + later;
    let r1 = replies.drop_first();
    let r2 = r1.drop_first();
    let r3 = r2.drop_first();
    assert(passed_steps(3, r3) == 0);
    assert(passed_steps(2, r2) == 1);
    assert(passed_steps(1, r1) == 2);
    assert(passed_steps(0, replies) == 3);
    lemma_reconnect_outcome(params, replies);
}

/// A reconnect that passes installs the device it opened.
pub proof fn lemma_passed_reconnect_installs_handle(
    session: SessionState,
    params: ReconnectParams,
    replies: Seq<DriverReply>,
)
    requires
        passed_steps(0, replies) == RECONNECT_STEPS,
    ensures
        Reconnect::initial(params).run(replies).spec_finish(session.after_close()).handle == Some(
            params.handle(),
        ),
        Reconnect::initial(params).run(replies).spec_finish(session.after_close()).receiving
            == session.receiving,
{
    lemma_reconnect_stage(params, replies);
}

/// An operation on the handle slot, with how the driver answered it.
pub enum SlotOp {
    /// An open of `handle` that the driver answered with `status`.
    Open { handle: DeviceHandle, status: i32 },
    /// A close.
    Close,
    /// A reconnect that took `replies` from the driver.
    Reconnect { params: ReconnectParams, replies: Seq<DriverReply> },
}

impl SlotOp {
    /// The session after the operation.
    pub open spec fn apply(self, session: SessionState) -> SessionState {
        match self {
            SlotOp::Open { handle, status } => session.after_open(handle, status),
            SlotOp::Close => session.after_close(),
            SlotOp::Reconnect { params, replies } => Reconnect::initial(params).run(
                replies,
            ).spec_finish(session.after_close()),
        }
    }

    /// The device the operation installs: an open or a reconnect that
    /// passed installs its device, every other operation none.
    pub open spec fn installs(self) -> Option<DeviceHandle> {
        match self {
            SlotOp::Open { handle, status } => if status_ok(status) {
                Some(handle)
            } else {
                None
            },
            SlotOp::Close => None,
            SlotOp::Reconnect { params, replies } => if passed_steps(0, replies)
                == RECONNECT_STEPS {
                Some(params.handle())
            } else {
                None
            },
        }
    }

    /// Whether the operation empties the slot: a close does, and so does a
    /// reconnect that failed. An open that failed does not.
    pub open spec fn clears(self) -> bool {
        match self {
            SlotOp::Open { .. } => false,
            SlotOp::Close => true,
            SlotOp::Reconnect { params, replies } => passed_steps(0, replies) != RECONNECT_STEPS,
        }
    }

    /// Whether the operation decides the slot at all.
    pub open spec fn terminal(self) -> bool {
        self.installs() is Some || self.clears()
    }
}

/// The session after a history of operations, oldest first.
pub open spec fn replay(start: SessionState, ops: Seq<SlotOp>) -> SessionState
    decreases ops.len(),
{
    if ops.len() == 0 {
        start
    } else {
        ops.last().apply(replay(start, ops.drop_last()))
    }
}

/// Operation `i` is the last in `ops` to decide the slot, and it installs a
/// device.
pub open spec fn last_terminal_installs(ops: Seq<SlotOp>, i: int) -> bool {
    &&& 0 <= i < ops.len()
    &&& ops[i].installs() is Some
    &&& forall|j: int| i < j < ops.len() ==> !(#[trigger] ops[j]).terminal()
}

/// No operation in `ops` decides the slot.
pub open spec fn none_terminal(ops: Seq<SlotOp>) -> bool {
    forall|j: int| 0 <= j < ops.len() ==> !(#[trigger] ops[j]).terminal()
}

proof fn lemma_apply(session: SessionState, op: SlotOp)
    ensures
        op.apply(session).receiving == session.receiving,
        op.installs() is Some ==> op.apply(session).handle == op.installs(),
        op.clears() ==> op.apply(session).handle is None,
        !op.terminal() ==> op.apply(session) == session,
        !(op.installs() is Some && op.clears()),
{
    match op {
        SlotOp::Reconnect { params, replies } => {
            lemma_reconnect_outcome(params, replies);
            lemma_reconnect_stage(params, replies);
        },
        _ => {},
    }
}

/// The handle slot follows the history of opens, closes and reconnects, and
/// nothing else: after any history,
/// - the slot holds the device of the last operation that decided it, if
///   that operation installed one;
/// - the slot is as it was at the start, if no operation decided it;
/// - the slot is empty otherwise, that is after a close or a failed
///   reconnect that no successful open has followed.
/// The receive flag is as it was at the start.
pub proof fn lemma_slot_follows_history(start: SessionState, ops: Seq<SlotOp>)
    ensures
        replay(start, ops).receiving == start.receiving,
        forall|i: int| #[trigger]
            last_terminal_installs(ops, i) ==> replay(start, ops).handle == ops[i].installs(),
        none_terminal(ops) ==> replay(start, ops).handle == start.handle,
        !none_terminal(ops) && !(exists|i: int| #[trigger] last_terminal_installs(ops, i))
            ==> replay(start, ops).handle is None,
    decreases ops.len(),
{
    if ops.len() > 0 {
        let earlier = ops.drop_last();
        let op = ops.last();
        let last: int = ops.len() - 1;
        lemma_slot_follows_history(start, earlier);
        lemma_apply(replay(start, earlier), op);
        assert(forall|j: int| 0 <= j < earlier.len() ==> earlier[j] == ops[j]);
        if op.terminal() {
            assert(ops[last].terminal());
            assert forall|i: int| #[trigger] last_terminal_installs(ops, i) implies i == last by {
                if i < last {
                    assert(!ops[last].terminal());
                }
            }
            if op.installs() is Some {
                assert(last_terminal_installs(ops, last));
            }
        } else {
            assert forall|i: int| #[trigger]
                last_terminal_installs(ops, i) implies last_terminal_installs(earlier, i) by {
                assert(i != last);
                assert forall|j: int| i < j < earlier.len() implies !(#[trigger] earlier[j]).terminal() by {
                    assert(!ops[j].terminal());
                }
            }
            if none_terminal(earlier) {
                assert forall|j: int| 0 <= j < ops.len() implies !(#[trigger] ops[j]).terminal() by {
                    if j < last {
                        assert(!earlier[j].terminal());
                    }
                }
            } else if exists|i: int| #[trigger] last_terminal_installs(earlier, i) {
                let i = choose|i: int| #[trigger] last_terminal_installs(earlier, i);
                assert forall|j: int| i < j < ops.len() implies !(#[trigger] ops[j]).terminal() by {
                    if j < last {
                        assert(!earlier[j].terminal());
                    }
                }
                assert(last_terminal_installs(ops, i));
            } else {
                if none_terminal(ops) {
                    assert forall|j: int| 0 <= j < earlier.len() implies !(#[trigger] earlier[j]).terminal() by {
                        assert(!ops[j].terminal());
                    }
                }
            }
        }
    }
}

/// From the empty session, a device is open exactly when the last operation
/// that decided the slot was an open or a reconnect that passed: one that no
/// close and no failed reconnect has followed.
pub proof fn lemma_open_iff_last_terminal_installs(ops: Seq<SlotOp>)
    ensures
        replay(SessionState::empty(), ops).handle is Some <==> exists|i: int| #[trigger]
            last_terminal_installs(ops, i),
{
    lemma_slot_follows_history(SessionState::empty(), ops);
    if exists|i: int| #[trigger] last_terminal_installs(ops, i) {
        let i = choose|i: int| #[trigger] last_terminal_installs(ops, i);
        assert(replay(SessionState::empty(), ops).handle == ops[i].installs());
    }
}

/// A start or a stop of polling.
pub enum PollOp {
    /// A start with the loop's parameters.
    Start(PollLoop),
    /// A stop.
    Stop,
}

/// The session after a history of starts and stops, oldest first, together
/// with the number of loops that were spawned since the last stop.
pub open spec fn poll_replay(start: SessionState, ops: Seq<PollOp>) -> (SessionState, nat)
    decreases ops.len(),
{
    if ops.len() == 0 {
        (start, 0)
    } else {
        let (session, running) = poll_replay(start, ops.drop_last());
        match ops.last() {
            PollOp::Start(poll) => (
                session.with_receiving(true),
                if session.spawned(poll) is Some {
                    running + 1
                } else {
                    running
                },
            ),
            PollOp::Stop => (session.with_receiving(false), 0),
        }
    }
}

/// A start while polling is on spawns nothing: of two starts with no stop in
/// between, the second is without effect.
pub proof fn lemma_second_start_spawns_nothing(
    session: SessionState,
    first: PollLoop,
    second: PollLoop,
)
    ensures
        session.with_receiving(true).spawned(second) is None,
        session.with_receiving(true).with_receiving(true) == session.with_receiving(true),
{
}

/// Whatever the history of starts and stops, from a session in which
/// polling is off, at most one loop was spawned since the last stop, and one
/// was exactly if the receive flag is set. Starts and stops leave the handle
/// slot alone.
pub proof fn lemma_one_poll_loop(start: SessionState, ops: Seq<PollOp>)
    requires
        !start.receiving,
    ensures
        poll_replay(start, ops).1 <= 1,
        poll_replay(start, ops).1 == 1 <==> poll_replay(start, ops).0.receiving,
        poll_replay(start, ops).0.handle == start.handle,
    decreases ops.len(),
{
    if ops.len() > 0 {
        lemma_one_poll_loop(start, ops.drop_last());
    }
}

/// Once polling is stopped, the next iteration of a loop leaves it, whether
/// or not a device is open and whatever was done to the handle slot in
/// between.
pub proof fn lemma_stop_ends_poll_loop(session: SessionState, poll: PollLoop, ops: Seq<SlotOp>)
    ensures
        session.with_receiving(false).spec_poll_step(poll) == PollStep::Stop,
        replay(session.with_receiving(false), ops).spec_poll_step(poll) == PollStep::Stop,
{
    lemma_slot_follows_history(session.with_receiving(false), ops);
}

/// A loop goes on exactly while the receive flag is set, and calls the
/// driver exactly while, besides, a device is open.
pub proof fn lemma_poll_step(session: SessionState, poll: PollLoop)
    ensures
        session.spec_poll_step(poll) is Stop <==> !session.receiving,
        session.spec_poll_step(poll) is Receive <==> session.receiving && session.handle is Some,
        session.spec_poll_step(poll) is Idle <==> session.receiving && session.handle is None,
{
}

/// A frame comes back as it went out. While a device is open, the transmit
/// of a frame hands the driver that very frame; and when a driver that
/// loops frames back delivers it to a receive, the receive gives that frame
/// again, with its length and every byte of it.
pub proof fn lemma_loopback_round_trip(
    session: SessionState,
    frame: VciCanObj,
    device_type: u32,
    device_index: u32,
    channel: u32,
    count: i32,
)
    requires
        session.handle is Some,
        count > 0,
    ensures
        ({
            let request = session.guard(
                DriverRequest::Transmit { device_type, device_index, channel, frame },
            );
            &&& request is Ok
            &&& request->Ok_0.frame() == Some(frame)
            &&& received(count, request->Ok_0.frame()->Some_0) == Ok::<VciCanObj, CanError>(frame)
        }),
{
}

/// A frame built from `n` payload bytes has length `n` and those bytes as
/// its payload, and is the only frame that carries them under its
/// identifier; so what a receive gives back of it, looped back, is the `n`
/// bytes it was built from.
pub proof fn lemma_payload_round_trip(frame: VciCanObj, id: u32, payload: Seq<u8>, count: i32)
    requires
        frame.carries(id, payload),
        count > 0,
    ensures
        frame.well_formed(),
        frame.data_len == payload.len(),
        received(count, frame) matches Ok(back) && back.payload() == payload && back.data_len
            == payload.len(),
        forall|other: VciCanObj| other.carries(id, payload) ==> other == frame,
{
    assert(frame.payload() =~= payload);
    assert forall|other: VciCanObj| other.carries(id, payload) implies other == frame by {
        assert forall|i: int| 0 <= i < 8 implies other.data[i] == frame.data[i] by {
            if i < payload.len() {
                assert(other.data[i] == payload[i]);
            }
        }
        assert(other.data =~= frame.data);
        assert(other.reserved =~= frame.reserved);
    }
}

/// A byte comes back as it went out: the frame that the transmit of one byte
/// builds, looped back to a receive, carries that byte as its whole payload.
pub proof fn lemma_byte_round_trip(data: u8, count: i32)
    requires
        count > 0,
    ensures
        received(count, VciCanObj::spec_single_byte(data)) matches Ok(frame) && frame.payload()
            == seq![data] && frame.data_len == 1,
{
    assert(VciCanObj::spec_single_byte(data).payload() =~= seq![data]);
}

} // verus!
