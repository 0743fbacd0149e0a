use can_adapter::driver::DriverRequest;
use can_adapter::error::CanError;
use can_adapter::frame::VciCanObj;
use can_adapter::session::{receive_outcome, transmit_outcome, SessionState};

/// A driver that queues what is transmitted and hands it back, oldest first,
/// to the receives that follow.
struct Loopback {
    queue: Vec<VciCanObj>,
    calls: usize,
}

impl Loopback {
    fn new() -> Loopback {
        Loopback { queue: Vec::new(), calls: 0 }
    }

    fn transmit(&mut self, request: DriverRequest) -> i32 {
        self.calls += 1;
        match request {
            DriverRequest::Transmit { frame, .. } => {
                self.queue.push(frame);
                1
            }
            _ => panic!("not a transmit"),
        }
    }

    fn receive(&mut self, request: DriverRequest) -> (i32, VciCanObj) {
        self.calls += 1;
        match request {
            DriverRequest::Receive { capacity: 1, timeout: 500, .. } => {
                if self.queue.is_empty() {
                    (0, VciCanObj::default())
                } else {
                    (1, self.queue.remove(0))
                }
            }
            _ => panic!("not a receive of one frame"),
        }
    }
}

#[test]
fn default_frame_is_all_zero() {
    let frame = VciCanObj::default();
    assert_eq!(
        frame,
        VciCanObj {
            id: 0,
            time_stamp: 0,
            time_flag: 0,
            send_type: 0,
            remote_flag: 0,
            extern_flag: 0,
            data_len: 0,
            data: [0; 8],
            reserved: [0; 3],
        }
    );
    assert!(frame.is_well_formed());
    assert!(frame.payload_bytes().is_empty());
}

#[test]
fn single_byte_frame_has_sentinel_id_and_length_one() {
    let frame = VciCanObj::single_byte(0x5A);
    assert_eq!(frame.id, 0x1);
    assert_eq!(frame.data_len, 1);
    assert_eq!(frame.data, [0x5A, 0, 0, 0, 0, 0, 0, 0]);
    assert_eq!(frame.payload_bytes(), vec![0x5A]);
    assert_eq!(Some(frame), VciCanObj::with_payload(0x1, &[0x5A]));
}

#[test]
fn with_payload_pads_with_zero() {
    let frame = VciCanObj::with_payload(0x321, &[1, 2, 3]).unwrap();
    assert_eq!(
        frame,
        VciCanObj {
            id: 0x321,
            time_stamp: 0,
            time_flag: 0,
            send_type: 0,
            remote_flag: 0,
            extern_flag: 0,
            data_len: 3,
            data: [1, 2, 3, 0, 0, 0, 0, 0],
            reserved: [0; 3],
        }
    );
}

#[test]
fn with_payload_takes_at_most_eight_bytes() {
    assert!(VciCanObj::with_payload(1, &[0; 8]).is_some());
    assert_eq!(VciCanObj::with_payload(1, &[0; 9]), None);
    assert_eq!(VciCanObj::with_payload(1, &[0; 300]), None);
}

#[test]
fn payload_bytes_stay_inside_the_buffer() {
    let mut frame = VciCanObj::default();
    frame.data = [1, 2, 3, 4, 5, 6, 7, 8];
    frame.data_len = 4;
    assert!(frame.is_well_formed());
    assert_eq!(frame.payload_bytes(), vec![1, 2, 3, 4]);
    frame.data_len = 8;
    assert_eq!(frame.payload_bytes(), vec![1, 2, 3, 4, 5, 6, 7, 8]);
    frame.data_len = 9;
    assert!(!frame.is_well_formed());
    assert_eq!(frame.payload_bytes(), vec![1, 2, 3, 4, 5, 6, 7, 8]);
    frame.data_len = 255;
    assert_eq!(frame.payload_bytes(), vec![1, 2, 3, 4, 5, 6, 7, 8]);
}

#[test]
fn frames_of_every_length_survive_the_loopback() {
    let bytes = [0x11u8, 0x22, 0x33, 0x44, 0x55, 0x66, 0x77, 0x88];
    let mut session = SessionState::new();
    assert!(session.complete_open(4, 0, 1).is_ok());
    let mut driver = Loopback::new();
    for len in 0..=8usize {
        let frame = VciCanObj::with_payload(0x100 + len as u32, &bytes[..len]).unwrap();
        let request = session.transmit_frame(frame, 4, 0, 0).unwrap();
        assert!(driver.transmit(request) > 0);
        let request = session.receive_once(4, 0, 0).unwrap();
        let (count, buffer) = driver.receive(request);
        let back = receive_outcome(count, buffer).unwrap();
        assert_eq!(back, frame);
        assert_eq!(back.data_len as usize, len);
        assert_eq!(back.payload_bytes(), bytes[..len].to_vec());
    }
}

#[test]
fn a_byte_survives_the_loopback() {
    let mut session = SessionState::new();
    assert!(session.complete_open(4, 0, 1).is_ok());
    let mut driver = Loopback::new();
    for data in [0u8, 1, 0x7F, 0x80, 0xFF] {
        let request = session.transmit(data, 4, 0, 0).unwrap();
        let sent = driver.transmit(request);
        assert_eq!(transmit_outcome(data, sent), Ok(data));
        let (count, buffer) = driver.receive(session.receive_once(4, 0, 0).unwrap());
        let back = receive_outcome(count, buffer).unwrap();
        assert_eq!(back.payload_bytes(), vec![data]);
        assert_eq!(back.data_len, 1);
    }
}

#[test]
fn empty_loopback_has_no_frame() {
    let mut session = SessionState::new();
    assert!(session.complete_open(4, 0, 1).is_ok());
    let mut driver = Loopback::new();
    let (count, buffer) = driver.receive(session.receive_once(4, 0, 0).unwrap());
    assert_eq!(receive_outcome(count, buffer), Err(CanError::NoFrameAvailable));
}

#[test]
fn driver_is_not_called_without_an_open_device() {
    let session = SessionState::new();
    let mut driver = Loopback::new();
    if let Ok(request) = session.transmit(1, 4, 0, 0) {
        driver.transmit(request);
    }
    if let Ok(request) = session.receive_once(4, 0, 0) {
        driver.receive(request);
    }
    assert_eq!(driver.calls, 0);
    assert!(driver.queue.is_empty());
}
