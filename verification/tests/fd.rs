use netsim::fd::{byte_count, fcntl_failed, is_valid_raw_fd, nonblocking_flags};

#[test]
fn negative_descriptors_are_invalid() {
    assert!(!is_valid_raw_fd(-1));
    assert!(is_valid_raw_fd(0));
    assert!(is_valid_raw_fd(7));
}

#[test]
fn flags_and_results() {
    assert_eq!(nonblocking_flags(0o2, 0o4000), 0o4002);
    assert!(fcntl_failed(-1));
    assert!(!fcntl_failed(0));
    assert_eq!(byte_count(-1), None);
    assert_eq!(byte_count(0), Some(0));
    assert_eq!(byte_count(1514), Some(1514));
}
