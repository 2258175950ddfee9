use ethersync::report::{Level, Record};
use ethersync::topology::{report_local, report_public, Discovery, PUBLIC_DISCOVERY_BOUND_SECS};

#[test]
fn local_address_is_reported_with_port() {
    let record = report_local(&Discovery::Resolved("192.168.1.5".to_string()), 4242);
    assert_eq!(
        record,
        Some(Record {
            level: Level::Info,
            message: "Listening on local TCP: 192.168.1.5:4242".to_string(),
        })
    );
}

#[test]
fn local_failure_is_swallowed() {
    assert_eq!(report_local(&Discovery::Unresolved, 4242), None);
    assert_eq!(report_local(&Discovery::TimedOut, 4242), None);
}

#[test]
fn public_address_is_reported_with_port() {
    let record = report_public(&Discovery::Resolved("203.0.113.7".to_string()), 65535);
    assert_eq!(
        record,
        Some(Record {
            level: Level::Info,
            message: "Listening on public TCP: 203.0.113.7:65535".to_string(),
        })
    );
}

#[test]
fn public_timeout_warns() {
    assert_eq!(
        report_public(&Discovery::TimedOut, 4242),
        Some(Record {
            level: Level::Warn,
            message: "Getting public IP address timed out".to_string(),
        })
    );
}

#[test]
fn public_failure_emits_nothing() {
    assert_eq!(report_public(&Discovery::Unresolved, 4242), None);
}

#[test]
fn public_discovery_bound_is_one_second() {
    assert_eq!(PUBLIC_DISCOVERY_BOUND_SECS, 1);
}
