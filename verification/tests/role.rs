use ethersync::role::PeerConnectionInfo;

#[test]
fn host_role_is_host() {
    assert!(PeerConnectionInfo::Accept(4242).is_host());
    assert!(PeerConnectionInfo::Accept(0).is_host());
    assert!(PeerConnectionInfo::Accept(u16::MAX).is_host());
}

#[test]
fn joiner_role_is_not_host() {
    assert!(!PeerConnectionInfo::Connect("192.168.1.5:4242".to_string()).is_host());
    assert!(!PeerConnectionInfo::Connect(String::new()).is_host());
}
