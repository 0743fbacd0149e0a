use can_adapter::config::VciInitConfig;
use can_adapter::driver::{DriverReply, DriverRequest};
use can_adapter::error::CanError;
use can_adapter::reconnect::{Reconnect, ReconnectParams, ReconnectStage, ReconnectSummary};
use can_adapter::session::{DeviceHandle, SessionState};

const PARAMS: ReconnectParams = ReconnectParams {
    device_type: 4,
    device_index: 0,
    channel_a: 0,
    channel_b: 1,
    timing0: 0x00,
    timing1: 0x1C,
};

fn config() -> VciInitConfig {
    VciInitConfig {
        acc_code: 0,
        acc_mask: 0xFFFF_FFFF,
        reserved: 0,
        filter: 1,
        timing0: 0x00,
        timing1: 0x1C,
        mode: 0,
    }
}

fn open_session() -> SessionState {
    let mut session = SessionState::new();
    assert!(session.complete_open(4, 0, 1).is_ok());
    session
}

/// Feeds the replies in order, as long as the machine asks for something,
/// and gives the requests it made.
fn drive(machine: &mut Reconnect, replies: &[DriverReply]) -> Vec<DriverRequest> {
    let mut requests = Vec::new();
    for reply in replies {
        match machine.request() {
            Some(request) => requests.push(request),
            None => break,
        }
        machine.advance(*reply);
    }
    requests
}

fn passing(steps: usize) -> Vec<DriverReply> {
    let mut replies = vec![DriverReply::Loaded(true)];
    while replies.len() < steps {
        replies.push(DriverReply::Status(1));
    }
    replies.truncate(steps);
    replies
}

#[test]
fn begin_clears_handle_and_closes_open_device() {
    let mut session = open_session();
    let (machine, close) = Reconnect::begin(&mut session, PARAMS);
    assert_eq!(session.handle, None);
    assert_eq!(close, Some(DriverRequest::Close { device_type: 4, device_index: 0 }));
    assert_eq!(machine.stage, ReconnectStage::Load);
    assert_eq!(machine.params, PARAMS);
}

#[test]
fn begin_closes_the_device_that_is_open() {
    let mut session = SessionState::new();
    assert!(session.complete_open(3, 5, 1).is_ok());
    let (_, close) = Reconnect::begin(&mut session, PARAMS);
    assert_eq!(close, Some(DriverRequest::Close { device_type: 3, device_index: 5 }));
    assert_eq!(session.handle, None);
}

#[test]
fn begin_without_handle_closes_nothing() {
    let mut session = SessionState::new();
    let (machine, close) = Reconnect::begin(&mut session, PARAMS);
    assert_eq!(close, None);
    assert_eq!(session, SessionState::new());
    assert_eq!(machine.request(), Some(DriverRequest::LoadBinding));
}

#[test]
fn begin_keeps_receive_flag() {
    let mut session = open_session();
    session.start_polling(4, 0, 0);
    let _ = Reconnect::begin(&mut session, PARAMS);
    assert!(session.receiving);
}

#[test]
fn passing_reconnect_asks_six_steps_in_order() {
    let mut session = open_session();
    let (mut machine, _) = Reconnect::begin(&mut session, PARAMS);
    let requests = drive(&mut machine, &passing(6));
    assert_eq!(
        requests,
        vec![
            DriverRequest::LoadBinding,
            DriverRequest::Open { device_type: 4, device_index: 0, reserved: 0 },
            DriverRequest::InitChannel {
                device_type: 4,
                device_index: 0,
                channel: 0,
                config: config()
            },
            DriverRequest::InitChannel {
                device_type: 4,
                device_index: 0,
                channel: 1,
                config: config()
            },
            DriverRequest::StartChannel { device_type: 4, device_index: 0, channel: 0 },
            DriverRequest::StartChannel { device_type: 4, device_index: 0, channel: 1 },
        ]
    );
    assert_eq!(machine.stage, ReconnectStage::Complete);
    assert_eq!(machine.request(), None);
}

#[test]
fn passing_reconnect_installs_handle_and_reports_timing() {
    let mut session = open_session();
    let (mut machine, _) = Reconnect::begin(&mut session, PARAMS);
    drive(&mut machine, &passing(6));
    let outcome = machine.finish(&mut session);
    assert_eq!(outcome, Ok(ReconnectSummary { timing0: 0x00, timing1: 0x1C }));
    assert_eq!(session.handle, Some(DeviceHandle { device_type: 4, device_index: 0 }));
    assert_eq!(
        outcome.unwrap().message(),
        "Device reconnected with new baud: Timing0 = 0x0, Timing1 = 0x1C"
    );
}

#[test]
fn summary_message_matches_hex_formatting() {
    for (timing0, timing1) in [(0u8, 0u8), (0x01, 0x1C), (0xFF, 0xA0), (0x10, 0x0F)] {
        let summary = ReconnectSummary { timing0, timing1 };
        assert_eq!(
            summary.message(),
            format!(
                "Device reconnected with new baud: Timing0 = 0x{:X}, Timing1 = 0x{:X}",
                timing0, timing1
            )
        );
    }
}

#[test]
fn failed_load_ends_at_once() {
    let mut session = open_session();
    let (mut machine, _) = Reconnect::begin(&mut session, PARAMS);
    machine.advance(DriverReply::Loaded(false));
    assert_eq!(machine.stage, ReconnectStage::Failed(CanError::DriverLoadFailed));
    assert_eq!(machine.request(), None);
    assert_eq!(machine.finish(&mut session), Err(CanError::DriverLoadFailed));
    assert_eq!(session.handle, None);
}

#[test]
fn failed_open_ends_at_once() {
    let mut session = open_session();
    let (mut machine, _) = Reconnect::begin(&mut session, PARAMS);
    let mut replies = passing(1);
    replies.push(DriverReply::Status(0));
    drive(&mut machine, &replies);
    assert_eq!(machine.stage, ReconnectStage::Failed(CanError::OpenFailed));
    assert_eq!(machine.request(), None);
    assert_eq!(machine.finish(&mut session), Err(CanError::OpenFailed));
    assert_eq!(session.handle, None);
}

#[test]
fn failed_first_init_closes_the_opened_device() {
    let mut session = open_session();
    let (mut machine, _) = Reconnect::begin(&mut session, PARAMS);
    let mut replies = passing(2);
    replies.push(DriverReply::Status(0));
    drive(&mut machine, &replies);
    assert_eq!(machine.stage, ReconnectStage::Abandon(CanError::InitFailed(0)));
    assert_eq!(
        machine.request(),
        Some(DriverRequest::Close { device_type: 4, device_index: 0 })
    );
    machine.advance(DriverReply::Status(0));
    assert_eq!(machine.stage, ReconnectStage::Failed(CanError::InitFailed(0)));
    assert_eq!(machine.request(), None);
    assert_eq!(machine.finish(&mut session), Err(CanError::InitFailed(0)));
    assert_eq!(session.handle, None);
}

#[test]
fn failed_second_init_installs_no_handle() {
    let mut session = open_session();
    let (mut machine, close) = Reconnect::begin(&mut session, PARAMS);
    assert!(close.is_some());
    assert_eq!(session.handle, None);
    let mut replies = passing(3);
    replies.push(DriverReply::Status(0));
    replies.push(DriverReply::Status(1));
    let requests = drive(&mut machine, &replies);
    assert_eq!(requests.len(), 5);
    assert_eq!(requests[4], DriverRequest::Close { device_type: 4, device_index: 0 });
    assert_eq!(machine.request(), None);
    assert_eq!(machine.finish(&mut session), Err(CanError::InitFailed(1)));
    assert_eq!(session.handle, None);
    assert!(!session.is_open());
}

#[test]
fn failed_starts_name_their_channel() {
    for (passed, error) in [(4usize, CanError::StartFailed(0)), (5usize, CanError::StartFailed(1))] {
        let mut session = open_session();
        let (mut machine, _) = Reconnect::begin(&mut session, PARAMS);
        let mut replies = passing(passed);
        replies.push(DriverReply::Status(-1));
        drive(&mut machine, &replies);
        assert_eq!(machine.stage, ReconnectStage::Abandon(error));
        assert_eq!(machine.outcome(), Err(error));
        machine.advance(DriverReply::Status(1));
        assert_eq!(machine.stage, ReconnectStage::Failed(error));
        assert_eq!(machine.finish(&mut session), Err(error));
        assert_eq!(session.handle, None);
    }
}

#[test]
fn every_failing_step_gives_its_own_error() {
    let errors = [
        CanError::DriverLoadFailed,
        CanError::OpenFailed,
        CanError::InitFailed(0),
        CanError::InitFailed(1),
        CanError::StartFailed(0),
        CanError::StartFailed(1),
    ];
    for (step, error) in errors.iter().enumerate() {
        let mut session = SessionState::new();
        let (mut machine, _) = Reconnect::begin(&mut session, PARAMS);
        let mut replies = passing(step);
        replies.push(if step == 0 { DriverReply::Loaded(false) } else { DriverReply::Status(0) });
        replies.push(DriverReply::Status(1));
        replies.push(DriverReply::Status(1));
        drive(&mut machine, &replies);
        assert_eq!(machine.request(), None);
        assert_eq!(machine.finish(&mut session), Err(*error));
        assert_eq!(session.handle, None);
    }
}

#[test]
fn reply_of_the_wrong_kind_fails_the_step() {
    let mut session = SessionState::new();
    let (mut machine, _) = Reconnect::begin(&mut session, PARAMS);
    machine.advance(DriverReply::Status(1));
    assert_eq!(machine.stage, ReconnectStage::Failed(CanError::DriverLoadFailed));

    let (mut machine, _) = Reconnect::begin(&mut session, PARAMS);
    machine.advance(DriverReply::Loaded(true));
    machine.advance(DriverReply::Loaded(true));
    assert_eq!(machine.stage, ReconnectStage::Failed(CanError::OpenFailed));
}

#[test]
fn ended_machine_ignores_further_replies() {
    let mut session = SessionState::new();
    let (mut machine, _) = Reconnect::begin(&mut session, PARAMS);
    for reply in passing(6) {
        machine.advance(reply);
    }
    assert_eq!(machine.stage, ReconnectStage::Complete);
    machine.advance(DriverReply::Status(0));
    machine.advance(DriverReply::Loaded(false));
    assert_eq!(machine.stage, ReconnectStage::Complete);

    let (mut machine, _) = Reconnect::begin(&mut session, PARAMS);
    machine.advance(DriverReply::Loaded(false));
    machine.advance(DriverReply::Status(1));
    assert_eq!(machine.stage, ReconnectStage::Failed(CanError::DriverLoadFailed));
}

#[test]
fn unfinished_reconnect_counts_as_failed_at_its_step() {
    let errors = [
        CanError::DriverLoadFailed,
        CanError::OpenFailed,
        CanError::InitFailed(0),
        CanError::InitFailed(1),
        CanError::StartFailed(0),
        CanError::StartFailed(1),
    ];
    for (passed, error) in errors.iter().enumerate() {
        let mut session = SessionState::new();
        let (mut machine, _) = Reconnect::begin(&mut session, PARAMS);
        for reply in passing(passed) {
            machine.advance(reply);
        }
        assert_eq!(machine.outcome(), Err(*error));
        assert_eq!(machine.finish(&mut session), Err(*error));
        assert_eq!(session.handle, None);
    }
}

#[test]
fn reconnect_with_one_channel_twice() {
    let params = ReconnectParams { channel_a: 1, channel_b: 1, ..PARAMS };
    let mut session = SessionState::new();
    let (mut machine, _) = Reconnect::begin(&mut session, params);
    let mut replies = passing(3);
    replies.push(DriverReply::Status(0));
    drive(&mut machine, &replies);
    assert_eq!(machine.outcome(), Err(CanError::InitFailed(1)));
}

#[test]
fn reconnect_ends_within_seven_replies() {
    for failing in 0..7usize {
        let mut session = SessionState::new();
        let (mut machine, _) = Reconnect::begin(&mut session, PARAMS);
        let mut fed = 0;
        while machine.request().is_some() {
            let reply = if fed == failing {
                DriverReply::Status(0)
            } else if fed == 0 {
                DriverReply::Loaded(true)
            } else {
                DriverReply::Status(1)
            };
            machine.advance(reply);
            fed += 1;
            assert!(fed <= 7);
        }
    }
}

#[test]
fn handle_follows_history_with_reconnects() {
    let mut session = open_session();
    assert!(session.is_open());

    let (mut machine, _) = Reconnect::begin(&mut session, PARAMS);
    let mut replies = passing(5);
    replies.push(DriverReply::Status(0));
    replies.push(DriverReply::Status(1));
    drive(&mut machine, &replies);
    assert!(machine.finish(&mut session).is_err());
    assert!(!session.is_open());

    assert!(session.complete_open(4, 0, 0).is_err());
    assert!(!session.is_open());

    let (mut machine, close) = Reconnect::begin(&mut session, PARAMS);
    assert_eq!(close, None);
    drive(&mut machine, &passing(6));
    assert!(machine.finish(&mut session).is_ok());
    assert!(session.is_open());

    assert!(session.complete_open(4, 0, 0).is_err());
    assert!(session.is_open());

    assert!(session.close(4, 0).is_ok());
    assert!(!session.is_open());
}
