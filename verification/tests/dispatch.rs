use bluez_monitor::dispatch::{decode_device_found, decode_device_lost, dispatch_outcome};
use bluez_monitor::{Address, ReqError};

#[test]
fn missing_release_handler_is_rejected() {
    let r: Result<(), ReqError> = dispatch_outcome(None);
    assert_eq!(r, Err(ReqError::Rejected));
}

#[test]
fn missing_activate_handler_is_rejected() {
    let r: Result<(), ReqError> = dispatch_outcome(None);
    assert_eq!(r, Err(ReqError::Rejected));
}

#[test]
fn missing_device_found_handler_is_rejected() {
    let r: Result<String, ReqError> = dispatch_outcome(None);
    assert_eq!(r, Err(ReqError::Rejected));
}

#[test]
fn missing_device_lost_handler_is_rejected() {
    let r: Result<String, ReqError> = dispatch_outcome(None);
    assert_eq!(r, Err(ReqError::Rejected));
}

#[test]
fn installed_handler_success_is_relayed_unchanged() {
    let r = dispatch_outcome(Some(Ok("tag-1".to_string())));
    assert_eq!(r, Ok("tag-1".to_string()));
    let u: Result<(), ReqError> = dispatch_outcome(Some(Ok(())));
    assert_eq!(u, Ok(()));
}

#[test]
fn installed_handler_error_is_relayed_unchanged() {
    let r: Result<String, ReqError> = dispatch_outcome(Some(Err(ReqError::Canceled)));
    assert_eq!(r, Err(ReqError::Canceled));
    let u: Result<(), ReqError> = dispatch_outcome(Some(Err(ReqError::Rejected)));
    assert_eq!(u, Err(ReqError::Rejected));
}

#[test]
fn device_found_request_round_trip() {
    // The daemon reports a device on hci0; the handler answers with a
    // tag, and that tag is the reply payload.
    let arg = decode_device_found("/org/bluez/hci0/dev_AA_BB_CC_DD_EE_FF").unwrap();
    assert_eq!(arg.adapter, "hci0");
    assert_eq!(arg.addr, Address::new([0xAA, 0xBB, 0xCC, 0xDD, 0xEE, 0xFF]));
    let outcome: Result<String, ReqError> = Ok("tag-1".to_string());
    let reply = dispatch_outcome(Some(outcome));
    assert_eq!(reply, Ok("tag-1".to_string()));
}

#[test]
fn device_lost_decode_matches_found_decode() {
    let lost = decode_device_lost("/org/bluez/hci1/dev_01_02_03_04_05_06").unwrap();
    assert_eq!(lost.adapter, "hci1");
    assert_eq!(lost.addr, Address::new([1, 2, 3, 4, 5, 6]));
}

#[test]
fn malformed_device_path_is_rejected_not_a_panic() {
    assert_eq!(
        decode_device_found("/org/bluez/hci0/dev_AA_BB").unwrap_err(),
        ReqError::Rejected
    );
    assert_eq!(decode_device_lost("nonsense").unwrap_err(), ReqError::Rejected);
}
