use ethersync::peer::{PeerAction, PeerEvent, PeerLink, PeerPhase, PeerStep};
use ethersync::report::{Fatal, FatalCause, Level, Record};
use ethersync::role::PeerConnectionInfo;
use ethersync::topology::Discovery;

fn info(message: &str) -> Option<Record> {
    Some(Record { level: Level::Info, message: message.to_string() })
}

fn quiet(action: PeerAction) -> PeerStep {
    PeerStep { record: None, action }
}

fn terminate(cause: FatalCause, detail: &str) -> PeerStep {
    quiet(PeerAction::Terminate(Fatal { cause, detail: detail.to_string() }))
}

fn resolved(address: &str) -> PeerEvent {
    PeerEvent::Discovered(Discovery::Resolved(address.to_string()))
}

fn accepting_host(port: u16) -> PeerLink {
    let (mut link, _) = PeerLink::establish(PeerConnectionInfo::Accept(port));
    link.step(PeerEvent::Bound);
    link.step(PeerEvent::Discovered(Discovery::Unresolved));
    link.step(PeerEvent::Discovered(Discovery::Unresolved));
    assert_eq!(link.phase(), PeerPhase::Accepting);
    link
}

#[test]
fn host_binds_every_interface_on_its_port() {
    let (link, first) = PeerLink::establish(PeerConnectionInfo::Accept(4242));
    assert_eq!(first, quiet(PeerAction::Bind("0.0.0.0:4242".to_string())));
    assert_eq!(link.phase(), PeerPhase::Binding);
    assert!(link.is_host());

    let (_, first) = PeerLink::establish(PeerConnectionInfo::Accept(0));
    assert_eq!(first, quiet(PeerAction::Bind("0.0.0.0:0".to_string())));
    let (_, first) = PeerLink::establish(PeerConnectionInfo::Accept(u16::MAX));
    assert_eq!(first, quiet(PeerAction::Bind("0.0.0.0:65535".to_string())));
}

#[test]
fn host_on_4242_hands_off_first_peer() {
    let (mut link, _) = PeerLink::establish(PeerConnectionInfo::Accept(4242));
    assert_eq!(link.step(PeerEvent::Bound), quiet(PeerAction::ResolveLocalAddress));
    assert_eq!(
        link.step(resolved("192.168.1.5")),
        PeerStep {
            record: info("Listening on local TCP: 192.168.1.5:4242"),
            action: PeerAction::ResolvePublicAddress { bound_secs: 1 },
        }
    );
    assert_eq!(
        link.step(resolved("203.0.113.7")),
        PeerStep {
            record: info("Listening on public TCP: 203.0.113.7:4242"),
            action: PeerAction::Accept,
        }
    );
    assert_eq!(
        link.step(PeerEvent::Accepted),
        PeerStep { record: info("Peer dialed us."), action: PeerAction::HandOffThenAccept }
    );
    assert_eq!(link.phase(), PeerPhase::Accepting);
    assert!(link.is_host());
}

#[test]
fn joiner_dials_once_and_hands_off() {
    let address = "192.168.1.5:4242".to_string();
    let (mut link, first) = PeerLink::establish(PeerConnectionInfo::Connect(address.clone()));
    assert_eq!(first, quiet(PeerAction::Dial(address)));
    assert_eq!(link.phase(), PeerPhase::Dialing);
    assert!(!link.is_host());
    assert_eq!(
        link.step(PeerEvent::Connected),
        PeerStep { record: info("Connected to Peer."), action: PeerAction::HandOffThenFinish }
    );
    assert_eq!(link.phase(), PeerPhase::Joined);
    assert!(!link.is_host());
}

#[test]
fn two_sequential_peers_are_both_handed_off() {
    let mut link = accepting_host(4242);
    let expected =
        PeerStep { record: info("Peer dialed us."), action: PeerAction::HandOffThenAccept };
    assert_eq!(link.step(PeerEvent::Accepted), expected);
    assert_eq!(link.phase(), PeerPhase::Accepting);
    assert_eq!(link.step(PeerEvent::Accepted), expected);
    assert_eq!(link.phase(), PeerPhase::Accepting);
}

#[test]
fn bind_failure_is_fatal_to_peer_setup() {
    let (mut link, _) = PeerLink::establish(PeerConnectionInfo::Accept(4242));
    let step = link.step(PeerEvent::Failed("Address already in use (os error 98)".to_string()));
    assert_eq!(step, terminate(FatalCause::PeerSetup, "Address already in use (os error 98)"));
    assert_eq!(link.phase(), PeerPhase::Failed);
    match step.action {
        PeerAction::Terminate(fatal) => assert_eq!(
            fatal.diagnostic(),
            "Failed to make connection: Address already in use (os error 98)"
        ),
        other => panic!("unexpected action {:?}", other),
    }
}

#[test]
fn dial_failure_is_fatal_to_peer_setup() {
    let (mut link, _) =
        PeerLink::establish(PeerConnectionInfo::Connect("192.168.1.5:4242".to_string()));
    assert_eq!(
        link.step(PeerEvent::Failed("Connection refused (os error 111)".to_string())),
        terminate(FatalCause::PeerSetup, "Connection refused (os error 111)")
    );
    assert_eq!(link.phase(), PeerPhase::Failed);
}

#[test]
fn accept_failure_after_a_connected_peer_is_fatal() {
    let mut link = accepting_host(4242);
    link.step(PeerEvent::Accepted);
    assert_eq!(
        link.step(PeerEvent::Failed("Too many open files (os error 24)".to_string())),
        terminate(FatalCause::PeerAccept, "Too many open files (os error 24)")
    );
    assert_eq!(link.phase(), PeerPhase::Failed);
    assert_eq!(
        link.step(PeerEvent::Accepted),
        terminate(FatalCause::PeerProtocol, "event out of turn")
    );
    assert_eq!(link.phase(), PeerPhase::Failed);
}

#[test]
fn discovery_never_keeps_the_host_from_accepting() {
    let outcomes = [
        resolved("10.0.0.1"),
        PeerEvent::Discovered(Discovery::Unresolved),
        PeerEvent::Discovered(Discovery::TimedOut),
        PeerEvent::Failed("no route".to_string()),
        PeerEvent::Accepted,
        PeerEvent::Bound,
        PeerEvent::Connected,
    ];
    for local in outcomes.iter() {
        for public in outcomes.iter() {
            let (mut link, _) = PeerLink::establish(PeerConnectionInfo::Accept(4242));
            link.step(PeerEvent::Bound);
            let after_local = link.step(local.clone());
            assert_eq!(after_local.action, PeerAction::ResolvePublicAddress { bound_secs: 1 });
            let after_public = link.step(public.clone());
            assert_eq!(after_public.action, PeerAction::Accept);
            assert_eq!(link.phase(), PeerPhase::Accepting);
        }
    }
}

#[test]
fn local_discovery_failure_is_silent() {
    for outcome in [
        PeerEvent::Discovered(Discovery::Unresolved),
        PeerEvent::Discovered(Discovery::TimedOut),
        PeerEvent::Failed("no interface".to_string()),
    ] {
        let (mut link, _) = PeerLink::establish(PeerConnectionInfo::Accept(4242));
        link.step(PeerEvent::Bound);
        assert_eq!(
            link.step(outcome),
            quiet(PeerAction::ResolvePublicAddress { bound_secs: 1 })
        );
    }
}

#[test]
fn public_discovery_timeout_warns_and_goes_on() {
    let (mut link, _) = PeerLink::establish(PeerConnectionInfo::Accept(4242));
    link.step(PeerEvent::Bound);
    link.step(PeerEvent::Discovered(Discovery::Unresolved));
    assert_eq!(
        link.step(PeerEvent::Discovered(Discovery::TimedOut)),
        PeerStep {
            record: Some(Record {
                level: Level::Warn,
                message: "Getting public IP address timed out".to_string(),
            }),
            action: PeerAction::Accept,
        }
    );
}

#[test]
fn public_discovery_without_address_is_silent() {
    let (mut link, _) = PeerLink::establish(PeerConnectionInfo::Accept(4242));
    link.step(PeerEvent::Bound);
    link.step(PeerEvent::Discovered(Discovery::Unresolved));
    assert_eq!(link.step(PeerEvent::Discovered(Discovery::Unresolved)), quiet(PeerAction::Accept));
}

#[test]
fn events_out_of_turn_end_the_link() {
    let (mut link, _) = PeerLink::establish(PeerConnectionInfo::Accept(4242));
    assert_eq!(
        link.step(PeerEvent::Connected),
        terminate(FatalCause::PeerProtocol, "event out of turn")
    );
    assert_eq!(link.phase(), PeerPhase::Failed);

    let (mut link, _) = PeerLink::establish(PeerConnectionInfo::Connect("host:1".to_string()));
    assert_eq!(
        link.step(PeerEvent::Bound),
        terminate(FatalCause::PeerProtocol, "event out of turn")
    );

    let mut link = accepting_host(1);
    assert_eq!(
        link.step(PeerEvent::Discovered(Discovery::TimedOut)),
        terminate(FatalCause::PeerProtocol, "event out of turn")
    );
}

#[test]
fn joiner_has_nothing_left_to_do_after_hand_off() {
    let (mut link, _) = PeerLink::establish(PeerConnectionInfo::Connect("host:1".to_string()));
    link.step(PeerEvent::Connected);
    assert_eq!(
        link.step(PeerEvent::Accepted),
        terminate(FatalCause::PeerProtocol, "event out of turn")
    );
    assert_eq!(link.phase(), PeerPhase::Failed);
    assert!(!link.is_host());
}

#[test]
fn role_lasts_through_failure() {
    let (mut link, _) = PeerLink::establish(PeerConnectionInfo::Accept(4242));
    link.step(PeerEvent::Failed("in use".to_string()));
    assert!(link.is_host());
    link.step(PeerEvent::Connected);
    assert!(link.is_host());
}
