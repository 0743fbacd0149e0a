use can_adapter::driver::{
    binding_outcome, is_status_ok, module_name, EntryPoint, ENTRY_POINT_COUNT, ENUMERATE_CAPACITY,
    POLL_INTERVAL, RECEIVE_CAPACITY, RECEIVE_TIMEOUT, STATUS_OK,
};
use can_adapter::error::CanError;

#[test]
fn only_status_one_is_success() {
    assert_eq!(STATUS_OK, 1);
    assert!(is_status_ok(1));
    for status in [0, -1, 2, 255, i32::MIN, i32::MAX] {
        assert!(!is_status_ok(status));
    }
}

#[test]
fn fixed_parameters_of_the_driver_calls() {
    assert_eq!(RECEIVE_CAPACITY, 1);
    assert_eq!(RECEIVE_TIMEOUT, 500);
    assert_eq!(POLL_INTERVAL, 10);
    assert_eq!(ENUMERATE_CAPACITY, 50);
    assert_eq!(ENTRY_POINT_COUNT, 8);
}

#[test]
fn module_is_the_vendor_library() {
    assert_eq!(module_name(), "ControlCAN.dll");
}

#[test]
fn entry_points_have_their_exported_names() {
    assert_eq!(EntryPoint::OpenDevice.symbol(), "VCI_OpenDevice");
    assert_eq!(EntryPoint::CloseDevice.symbol(), "VCI_CloseDevice");
    assert_eq!(EntryPoint::InitCan.symbol(), "VCI_InitCAN");
    assert_eq!(EntryPoint::StartCan.symbol(), "VCI_StartCAN");
    assert_eq!(EntryPoint::Transmit.symbol(), "VCI_Transmit");
    assert_eq!(EntryPoint::Receive.symbol(), "VCI_Receive");
    assert_eq!(EntryPoint::FindUsbDevice2.symbol(), "VCI_FindUsbDevice2");
    assert_eq!(EntryPoint::ReadBoardInfo.symbol(), "VCI_ReadBoardInfo");
}

#[test]
fn entry_points_are_numbered_in_order() {
    let all = [
        EntryPoint::OpenDevice,
        EntryPoint::CloseDevice,
        EntryPoint::InitCan,
        EntryPoint::StartCan,
        EntryPoint::Transmit,
        EntryPoint::Receive,
        EntryPoint::FindUsbDevice2,
        EntryPoint::ReadBoardInfo,
    ];
    for (index, entry) in all.iter().enumerate() {
        assert_eq!(entry.index(), index);
        assert_eq!(EntryPoint::from_index(index), Some(*entry));
    }
    assert_eq!(EntryPoint::from_index(8), None);
    assert_eq!(EntryPoint::from_index(usize::MAX), None);
}

#[test]
fn binding_needs_every_entry_point() {
    assert_eq!(binding_outcome(&[true; 8]), Ok(()));
    for missing in 0..8 {
        let mut resolved = [true; 8];
        resolved[missing] = false;
        assert_eq!(binding_outcome(&resolved), Err(CanError::DriverLoadFailed));
    }
    assert_eq!(binding_outcome(&[false; 8]), Err(CanError::DriverLoadFailed));
}

#[test]
fn binding_of_the_wrong_size_is_refused() {
    assert_eq!(binding_outcome(&[]), Err(CanError::DriverLoadFailed));
    assert_eq!(binding_outcome(&[true; 7]), Err(CanError::DriverLoadFailed));
    assert_eq!(binding_outcome(&[true; 9]), Err(CanError::DriverLoadFailed));
}
