use can_adapter::error::CanError;

#[test]
fn every_failure_has_its_message() {
    assert_eq!(CanError::DriverLoadFailed.message(), "Failed to load the CAN driver");
    assert_eq!(CanError::NotInitialized.message(), "CAN device not initialized");
    assert_eq!(CanError::OpenFailed.message(), "Failed to open device");
    assert_eq!(CanError::InitFailed(0).message(), "Failed to initialize CAN channel 0");
    assert_eq!(CanError::InitFailed(1).message(), "Failed to initialize CAN channel 1");
    assert_eq!(CanError::StartFailed(1).message(), "Failed to start CAN channel 1");
    assert_eq!(
        CanError::StartFailed(u32::MAX).message(),
        "Failed to start CAN channel 4294967295"
    );
    assert_eq!(CanError::TransmitFailed.message(), "Failed to transmit CAN data");
    assert_eq!(CanError::NoFrameAvailable.message(), "No CAN message received");
    assert_eq!(CanError::ReadFailed.message(), "Failed to read board info");
}

#[test]
fn only_an_empty_receive_is_not_reported() {
    assert!(!CanError::NoFrameAvailable.is_reported());
    for error in [
        CanError::DriverLoadFailed,
        CanError::NotInitialized,
        CanError::OpenFailed,
        CanError::InitFailed(0),
        CanError::StartFailed(1),
        CanError::TransmitFailed,
        CanError::ReadFailed,
    ] {
        assert!(error.is_reported());
    }
}
