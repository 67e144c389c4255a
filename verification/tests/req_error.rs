use bluez_monitor::ReqError;

#[test]
fn default_is_canceled() {
    assert_eq!(ReqError::default(), ReqError::Canceled);
}

#[test]
fn names_are_stable() {
    assert_eq!(ReqError::Rejected.name(), "Rejected");
    assert_eq!(ReqError::Canceled.name(), "Canceled");
}

#[test]
fn messages_are_human_readable() {
    assert_eq!(ReqError::Rejected.message(), "Request was rejected.");
    assert_eq!(ReqError::Canceled.message(), "Request was canceled.");
}

#[test]
fn bus_error_name_concatenates_namespace_and_name() {
    assert_eq!(ReqError::Rejected.bus_error_name(), "org.bluez.Error.Rejected");
    assert_eq!(ReqError::Canceled.bus_error_name(), "org.bluez.Error.Canceled");
}

#[test]
fn supports_equality_ordering_and_hashing() {
    let mut set = std::collections::HashSet::new();
    set.insert(ReqError::Rejected);
    set.insert(ReqError::Canceled);
    set.insert(ReqError::Rejected);
    assert_eq!(set.len(), 2);
    assert!(ReqError::Rejected < ReqError::Canceled || ReqError::Canceled < ReqError::Rejected);
    assert_ne!(ReqError::Rejected, ReqError::Canceled);
}
