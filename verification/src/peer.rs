//! The peer link establisher as a state machine.
//!
//! The machine decides; its driver performs. Every step names one action for
//! the driver, and the driver answers with the event that tells how the
//! action ended. A joiner dials once and hands the connection over. A host
//! binds its port, reports the addresses it can be reached at, and then hands
//! over every connection it accepts, one after the other, for as long as the
//! listener lives.

use crate::report::{
    out_of_turn_detail,
    record_view,
    Fatal,
    FatalCause,
    FatalView,
    Level,
    Record,
    RecordView,
};
use crate::role::{PeerConnectionInfo, RoleView};
use crate::topology::{
    append_endpoint,
    endpoint,
    local_record,
    public_record,
    report_local,
    report_public,
    Discovery,
    DiscoveryView,
    PUBLIC_DISCOVERY_BOUND_SECS,
};
use vstd::prelude::*;

verus! {

/// Where the establisher stands: the action whose outcome it waits for.
#[derive(Clone, Copy, Debug, PartialEq, Eq, Structural)]
pub enum PeerPhase {
    /// A joiner is dialing its peer.
    Dialing,
    /// A host is binding its port.
    Binding,
    /// A host is looking up its local address.
    ResolvingLocal,
    /// A host is looking up its public address.
    ResolvingPublic,
    /// A host is waiting for a connection.
    Accepting,
    /// A joiner has handed its connection over; nothing is left to do.
    Joined,
    /// The link failed beyond recovery.
    Failed,
}

/// How the action that the establisher asked for ended.
#[derive(Clone, Debug, PartialEq, Eq)]
pub enum PeerEvent {
    /// The dial succeeded; the driver holds the connection.
    Connected,
    /// The port is bound; the driver holds the listener.
    Bound,
    /// An address lookup ended.
    Discovered(Discovery),
    /// The listener accepted a connection; the driver holds it.
    Accepted,
    /// The action failed; this is the error in words.
    Failed(String),
}

/// An event with its texts as sequences of characters.
#[verifier::ext_equal]
pub enum PeerEventView {
    Connected,
    Bound,
    Discovered(DiscoveryView),
    Accepted,
    Failed(Seq<char>),
}

impl View for PeerEvent {
    type V = PeerEventView;

    open spec fn view(&self) -> PeerEventView {
        match self {
            PeerEvent::Connected => PeerEventView::Connected,
            PeerEvent::Bound => PeerEventView::Bound,
            PeerEvent::Discovered(outcome) => PeerEventView::Discovered(outcome@),
            PeerEvent::Accepted => PeerEventView::Accepted,
            PeerEvent::Failed(detail) => PeerEventView::Failed(detail@),
        }
    }
}

/// What the driver is to do next.
#[derive(Clone, Debug, PartialEq, Eq)]
pub enum PeerAction {
    /// Dial this address once.
    Dial(String),
    /// Bind a listener to this address.
    Bind(String),
    /// Look up the local address.
    ResolveLocalAddress,
    /// Look up the public address, giving up after the bound.
    ResolvePublicAddress { bound_secs: u64 },
    /// Wait for a connection.
    Accept,
    /// Hand the accepted connection to peer synchronisation without waiting
    /// for it, then wait for the next connection.
    HandOffThenAccept,
    /// Hand the dialed connection to peer synchronisation, then return.
    HandOffThenFinish,
    /// End the process with this failure.
    Terminate(Fatal),
}

/// An action with its texts as sequences of characters.
#[verifier::ext_equal]
pub enum PeerActionView {
    Dial(Seq<char>),
    Bind(Seq<char>),
    ResolveLocalAddress,
    ResolvePublicAddress { bound_secs: u64 },
    Accept,
    HandOffThenAccept,
    HandOffThenFinish,
    Terminate(FatalView),
}

impl View for PeerAction {
    type V = PeerActionView;

    open spec fn view(&self) -> PeerActionView {
        match self {
            PeerAction::Dial(address) => PeerActionView::Dial(address@),
            PeerAction::Bind(address) => PeerActionView::Bind(address@),
            PeerAction::ResolveLocalAddress => PeerActionView::ResolveLocalAddress,
            PeerAction::ResolvePublicAddress { bound_secs } => {
                PeerActionView::ResolvePublicAddress { bound_secs: *bound_secs }
            },
            PeerAction::Accept => PeerActionView::Accept,
            PeerAction::HandOffThenAccept => PeerActionView::HandOffThenAccept,
            PeerAction::HandOffThenFinish => PeerActionView::HandOffThenFinish,
            PeerAction::Terminate(fatal) => PeerActionView::Terminate(fatal@),
        }
    }
}

/// One decision of the establisher: a record to emit, if any, and the action
/// to perform after it.
#[derive(Clone, Debug, PartialEq, Eq)]
pub struct PeerStep {
    pub record: Option<Record>,
    pub action: PeerAction,
}

/// A step with its texts as sequences of characters.
#[verifier::ext_equal]
pub struct PeerStepView {
    pub record: Option<RecordView>,
    pub action: PeerActionView,
}

impl View for PeerStep {
    type V = PeerStepView;

    open spec fn view(&self) -> PeerStepView {
        PeerStepView { record: record_view(self.record), action: self.action@ }
    }
}

/// The establisher: the role chosen at startup and the current phase.
#[derive(Debug)]
pub struct PeerLink {
    role: PeerConnectionInfo,
    phase: PeerPhase,
}

/// The establisher as its role and phase.
#[verifier::ext_equal]
pub struct PeerLinkView {
    pub role: RoleView,
    pub phase: PeerPhase,
}

impl View for PeerLink {
    type V = PeerLinkView;

    closed spec fn view(&self) -> PeerLinkView {
        PeerLinkView { role: self.role@, phase: self.phase }
    }
}

/// The address a host binds: every interface, on its port.
pub open spec fn bind_address(port: u16) -> Seq<char> {
    endpoint("0.0.0.0"@, port)
}

/// A step that emits nothing.
pub open spec fn quiet(action: PeerActionView) -> PeerStepView {
    PeerStepView { record: None, action }
}

/// A step that emits one informational record.
pub open spec fn inform(message: Seq<char>, action: PeerActionView) -> PeerStepView {
    PeerStepView { record: Some(RecordView { level: Level::Info, message }), action }
}

/// The end of the link: the failed state and the step that terminates.
pub open spec fn peer_failure(state: PeerLinkView, cause: FatalCause, detail: Seq<char>) -> (
    PeerLinkView,
    PeerStepView,
) {
    (
        PeerLinkView { role: state.role, phase: PeerPhase::Failed },
        quiet(PeerActionView::Terminate(FatalView { cause, detail })),
    )
}

/// The answer to an event that the pending action cannot have produced.
pub open spec fn peer_out_of_turn(state: PeerLinkView) -> (PeerLinkView, PeerStepView) {
    peer_failure(state, FatalCause::PeerProtocol, out_of_turn_detail())
}

/// The outcome of an address lookup as an event tells it: any event that is
/// not a lookup outcome counts as a lookup without an address.
pub open spec fn discovery_of(event: PeerEventView) -> DiscoveryView {
    match event {
        PeerEventView::Discovered(outcome) => outcome,
        _ => DiscoveryView::Unresolved,
    }
}

/// The establisher at startup and its first action: a joiner dials the
/// address it was given, a host binds its port on every interface.
pub open spec fn peer_start(role: RoleView) -> (PeerLinkView, PeerStepView) {
    match role {
        RoleView::Connect(address) => (
            PeerLinkView { role, phase: PeerPhase::Dialing },
            quiet(PeerActionView::Dial(address)),
        ),
        RoleView::Accept(port) => (
            PeerLinkView { role, phase: PeerPhase::Binding },
            quiet(PeerActionView::Bind(bind_address(port))),
        ),
    }
}

/// The transition of the establisher: the state after `event` and the step
/// decided on it.
///
/// Failing to dial, bind or accept ends the link. An address lookup never
/// does, whatever its outcome. A state whose phase does not belong to its
/// role, and a link that has joined or failed, answer every event as out of
/// turn.
pub open spec fn peer_next(state: PeerLinkView, event: PeerEventView) -> (
    PeerLinkView,
    PeerStepView,
) {
    match (state.phase, state.role) {
        (PeerPhase::Dialing, RoleView::Connect(_)) => match event {
            PeerEventView::Connected => (
                PeerLinkView { role: state.role, phase: PeerPhase::Joined },
                inform("Connected to Peer."@, PeerActionView::HandOffThenFinish),
            ),
            PeerEventView::Failed(detail) => peer_failure(state, FatalCause::PeerSetup, detail),
            _ => peer_out_of_turn(state),
        },
        (PeerPhase::Binding, RoleView::Accept(_)) => match event {
            PeerEventView::Bound => (
                PeerLinkView { role: state.role, phase: PeerPhase::ResolvingLocal },
                quiet(PeerActionView::ResolveLocalAddress),
            ),
            PeerEventView::Failed(detail) => peer_failure(state, FatalCause::PeerSetup, detail),
            _ => peer_out_of_turn(state),
        },
        (PeerPhase::ResolvingLocal, RoleView::Accept(port)) => (
            PeerLinkView { role: state.role, phase: PeerPhase::ResolvingPublic },
            PeerStepView {
                record: local_record(discovery_of(event), port),
                action: PeerActionView::ResolvePublicAddress {
                    bound_secs: PUBLIC_DISCOVERY_BOUND_SECS,
                },
            },
        ),
        (PeerPhase::ResolvingPublic, RoleView::Accept(port)) => (
            PeerLinkView { role: state.role, phase: PeerPhase::Accepting },
            PeerStepView {
                record: public_record(discovery_of(event), port),
                action: PeerActionView::Accept,
            },
        ),
        (PeerPhase::Accepting, RoleView::Accept(_)) => match event {
            PeerEventView::Accepted => (
                state,
                inform("Peer dialed us."@, PeerActionView::HandOffThenAccept),
            ),
            PeerEventView::Failed(detail) => peer_failure(state, FatalCause::PeerAccept, detail),
            _ => peer_out_of_turn(state),
        },
        _ => peer_out_of_turn(state),
    }
}

impl PeerLink {
    /// Starts the establisher in the given role and names its first action.
    pub fn establish(connection_info: PeerConnectionInfo) -> (started: (PeerLink, PeerStep))
        ensures
            (started.0@, started.1@) == peer_start(connection_info@),
    {
        match connection_info {
            PeerConnectionInfo::Connect(address) => {
                let action = PeerAction::Dial(address.clone());
                (
                    PeerLink {
                        role: PeerConnectionInfo::Connect(address),
                        phase: PeerPhase::Dialing,
                    },
                    PeerStep { record: None, action },
                )
            },
            PeerConnectionInfo::Accept(port) => {
                let mut address = String::new();
                append_endpoint(&mut address, "0.0.0.0", port);
                assert(address@ =~= bind_address(port));
                (
                    PeerLink { role: PeerConnectionInfo::Accept(port), phase: PeerPhase::Binding },
                    PeerStep { record: None, action: PeerAction::Bind(address) },
                )
            },
        }
    }

    /// True exactly when this establisher is a host.
    pub fn is_host(&self) -> (host: bool)
        ensures
            host == (self@.role is Accept),
    {
        self.role.is_host()
    }

    /// The current phase.
    pub fn phase(&self) -> (phase: PeerPhase)
        ensures
            phase == self@.phase,
    {
        self.phase
    }

    /// Ends the link with a failure.
    fn fail(&mut self, cause: FatalCause, detail: String) -> (step: PeerStep)
        ensures
            (final(self)@, step@) == peer_failure(old(self)@, cause, detail@),
    {
        self.phase = PeerPhase::Failed;
        PeerStep { record: None, action: PeerAction::Terminate(Fatal { cause, detail }) }
    }

    /// Ends the link because the event answers no pending action.
    fn out_of_turn(&mut self) -> (step: PeerStep)
        ensures
            (final(self)@, step@) == peer_out_of_turn(old(self)@),
    {
        self.fail(FatalCause::PeerProtocol, "event out of turn".to_owned())
    }

    /// Takes the outcome of the pending action and decides what comes next.
    pub fn step(&mut self, event: PeerEvent) -> (step: PeerStep)
        ensures
            (final(self)@, step@) == peer_next(old(self)@, event@),
    {
        let host_port = match &self.role {
            PeerConnectionInfo::Accept(port) => Some(*port),
            PeerConnectionInfo::Connect(_) => None,
        };
        match (self.phase, host_port) {
            (PeerPhase::Dialing, None) => match event {
                PeerEvent::Connected => {
                    self.phase = PeerPhase::Joined;
                    PeerStep {
                        record: Some(
                            Record { level: Level::Info, message: "Connected to Peer.".to_owned() },
                        ),
                        action: PeerAction::HandOffThenFinish,
                    }
                },
                PeerEvent::Failed(detail) => self.fail(FatalCause::PeerSetup, detail),
                _ => self.out_of_turn(),
            },
            (PeerPhase::Binding, Some(_)) => match event {
                PeerEvent::Bound => {
                    self.phase = PeerPhase::ResolvingLocal;
                    PeerStep { record: None, action: PeerAction::ResolveLocalAddress }
                },
                PeerEvent::Failed(detail) => self.fail(FatalCause::PeerSetup, detail),
                _ => self.out_of_turn(),
            },
            (PeerPhase::ResolvingLocal, Some(port)) => {
                let record = match &event {
                    PeerEvent::Discovered(outcome) => report_local(outcome, port),
                    _ => None,
                };
                self.phase = PeerPhase::ResolvingPublic;
                PeerStep {
                    record,
                    action: PeerAction::ResolvePublicAddress {
                        bound_secs: PUBLIC_DISCOVERY_BOUND_SECS,
                    },
                }
            },
            (PeerPhase::ResolvingPublic, Some(port)) => {
                let record = match &event {
                    PeerEvent::Discovered(outcome) => report_public(outcome, port),
                    _ => None,
                };
                self.phase = PeerPhase::Accepting;
                PeerStep { record, action: PeerAction::Accept }
            },
            (PeerPhase::Accepting, Some(_)) => match event {
                PeerEvent::Accepted => PeerStep {
                    record: Some(
                        Record { level: Level::Info, message: "Peer dialed us.".to_owned() },
                    ),
                    action: PeerAction::HandOffThenAccept,
                },
                PeerEvent::Failed(detail) => self.fail(FatalCause::PeerAccept, detail),
                _ => self.out_of_turn(),
            },
            _ => self.out_of_turn(),
        }
    }
}

/// The states and steps of a run: the events answered one after the other,
/// starting in `state`.
pub open spec fn peer_run(state: PeerLinkView, events: Seq<PeerEventView>) -> (
    PeerLinkView,
    Seq<PeerStepView>,
)
    decreases events.len(),
{
    if events.len() == 0 {
        (state, Seq::empty())
    } else {
        let before = peer_run(state, events.drop_last());
        let last = peer_next(before.0, events.last());
        (last.0, before.1.push(last.1))
    }
}

/// True when the phase of a state belongs to its role: only a joiner dials
/// and joins, only a host binds, looks up addresses and accepts.
pub open spec fn phase_fits_role(state: PeerLinkView) -> bool {
    match state.phase {
        PeerPhase::Dialing | PeerPhase::Joined => state.role is Connect,
        PeerPhase::Binding
        | PeerPhase::ResolvingLocal
        | PeerPhase::ResolvingPublic
        | PeerPhase::Accepting => state.role is Accept,
        PeerPhase::Failed => true,
    }
}

/// True when an action is one that the role may ask for: only a joiner dials
/// and finishes, only a host binds, looks up addresses and accepts.
pub open spec fn action_fits_role(role: RoleView, action: PeerActionView) -> bool {
    match action {
        PeerActionView::Dial(_) | PeerActionView::HandOffThenFinish => role is Connect,
        PeerActionView::Bind(_)
        | PeerActionView::ResolveLocalAddress
        | PeerActionView::ResolvePublicAddress { .. }
        | PeerActionView::Accept
        | PeerActionView::HandOffThenAccept => role is Accept,
        PeerActionView::Terminate(_) => true,
    }
}

/// The role chosen at startup lasts: whatever events arrive, the state keeps
/// its role, its phase belongs to that role, and every action asked for is
/// one of that role. A host never dials and a joiner never listens.
pub proof fn role_lasts(role: RoleView, events: Seq<PeerEventView>)
    ensures
        peer_start(role).0.role == role,
        phase_fits_role(peer_start(role).0),
        action_fits_role(role, peer_start(role).1.action),
        peer_run(peer_start(role).0, events).0.role == role,
        phase_fits_role(peer_run(peer_start(role).0, events).0),
        peer_run(peer_start(role).0, events).1.len() == events.len(),
        forall|i: int|
            0 <= i < events.len() ==> action_fits_role(
                role,
                #[trigger] peer_run(peer_start(role).0, events).1[i].action,
            ),
{
    run_keeps_role(peer_start(role).0, events);
}

/// A run from any state keeps the role, keeps the phase fitting the role if
/// it did at the start, and asks only for actions of that role.
pub proof fn run_keeps_role(state: PeerLinkView, events: Seq<PeerEventView>)
    ensures
        peer_run(state, events).0.role == state.role,
        phase_fits_role(state) ==> phase_fits_role(peer_run(state, events).0),
        peer_run(state, events).1.len() == events.len(),
        forall|i: int|
            0 <= i < events.len() ==> action_fits_role(
                state.role,
                #[trigger] peer_run(state, events).1[i].action,
            ),
    decreases events.len(),
{
    if events.len() > 0 {
        run_keeps_role(state, events.drop_last());
    }
}

/// Address discovery never gates the accept loop: once the port is bound,
/// the host asks for its local address, then for its public address with a
/// bound of one second, then waits for its peer, whatever the two lookups
/// answer, be it an address, a failure, a timeout or anything else.
pub proof fn discovery_never_gates(port: u16, local: PeerEventView, public: PeerEventView)
    ensures
        ({
            let bound = peer_next(peer_start(RoleView::Accept(port)).0, PeerEventView::Bound);
            let after_local = peer_next(bound.0, local);
            let after_public = peer_next(after_local.0, public);
            &&& bound.1 == quiet(PeerActionView::ResolveLocalAddress)
            &&& after_local.1.action == PeerActionView::ResolvePublicAddress { bound_secs: 1 }
            &&& after_local.1.record == local_record(discovery_of(local), port)
            &&& after_public.1.action == PeerActionView::Accept
            &&& after_public.1.record == public_record(discovery_of(public), port)
            &&& after_public.0 == PeerLinkView {
                role: RoleView::Accept(port),
                phase: PeerPhase::Accepting,
            }
        }),
{
}

/// A host hands over every connection it accepts: a host that waits for a
/// connection answers each accepted one with a hand-over and waits again,
/// in the same state as before. No event stands between two hand-overs, so
/// none depends on how an earlier session fares.
pub proof fn every_connection_is_handed_over(state: PeerLinkView, connections: nat)
    requires
        state.phase == PeerPhase::Accepting,
        state.role is Accept,
    ensures
        ({
            let run = peer_run(
                state,
                Seq::new(connections, |i: int| PeerEventView::Accepted),
            );
            &&& run.0 == state
            &&& run.1.len() == connections
            &&& forall|i: int|
                0 <= i < connections ==> #[trigger] run.1[i] == inform(
                    "Peer dialed us."@,
                    PeerActionView::HandOffThenAccept,
                )
        }),
    decreases connections,
{
    if connections > 0 {
        let shorter = (connections - 1) as nat;
        every_connection_is_handed_over(state, shorter);
        let events = Seq::new(connections, |i: int| PeerEventView::Accepted);
        assert(events.drop_last() =~= Seq::new(shorter, |i: int| PeerEventView::Accepted));
    }
}

/// Failure is final: a link that has failed, or a joiner that has handed its
/// connection over, answers every further event by terminating.
pub proof fn nothing_follows_the_end(state: PeerLinkView, events: Seq<PeerEventView>)
    requires
        state.phase == PeerPhase::Failed || state.phase == PeerPhase::Joined,
    ensures
        events.len() > 0 ==> peer_run(state, events).0.phase == PeerPhase::Failed,
        peer_run(state, events).1.len() == events.len(),
        forall|i: int|
            0 <= i < events.len() ==> #[trigger] peer_run(state, events).1[i] == quiet(
                PeerActionView::Terminate(
                    FatalView { cause: FatalCause::PeerProtocol, detail: out_of_turn_detail() },
                ),
            ),
    decreases events.len(),
{
    if events.len() > 0 {
        nothing_follows_the_end(state, events.drop_last());
    }
}

/// Any failure to dial, bind or accept ends the link at once, with the
/// error as the detail of the diagnostic.
pub proof fn setup_and_accept_failures_are_fatal(state: PeerLinkView, detail: Seq<char>)
    requires
        phase_fits_role(state),
        state.phase == PeerPhase::Dialing || state.phase == PeerPhase::Binding || state.phase
            == PeerPhase::Accepting,
    ensures
        ({
            let next = peer_next(state, PeerEventView::Failed(detail));
            let cause = if state.phase == PeerPhase::Accepting {
                FatalCause::PeerAccept
            } else {
                FatalCause::PeerSetup
            };
            &&& next.0.phase == PeerPhase::Failed
            &&& next.1 == quiet(PeerActionView::Terminate(FatalView { cause, detail }))
        }),
{
}

} // verus!
