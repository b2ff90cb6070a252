use redeployer::forwarder::Forwarder;

#[test]
fn new_forwarder_accepts() {
    let mut f = Forwarder::new(8000, 8123);
    assert_eq!(f.target(), 8123);
    assert!(f.is_drained());
    assert!(f.accept_connection());
    assert!(f.accept_connection());
    assert_eq!(f.open, 2);
    assert!(!f.is_drained());
}

#[test]
fn stopped_forwarder_drains_in_flight() {
    let mut f = Forwarder::new(8000, 8123);
    assert!(f.accept_connection());
    f.stop();
    assert!(!f.accept_connection());
    assert_eq!(f.open, 1);
    assert_eq!(f.target(), 8123);
    assert!(!f.is_drained());
    f.release();
    assert!(f.is_drained());
}
