//! What the connection layer tells its operator: records for the log and the
//! diagnostics of failures that end the process.

use vstd::prelude::*;

verus! {

/// How loud a record is.
#[derive(Clone, Copy, Debug, PartialEq, Eq, Structural)]
pub enum Level {
    /// Ordinary progress.
    Info,
    /// Something went wrong that does not stop the daemon.
    Warn,
}

/// One line for the operator, to be emitted at its level.
#[derive(Clone, Debug, PartialEq, Eq)]
pub struct Record {
    pub level: Level,
    pub message: String,
}

/// A record with its message as a sequence of characters.
#[verifier::ext_equal]
pub struct RecordView {
    pub level: Level,
    pub message: Seq<char>,
}

impl View for Record {
    type V = RecordView;

    open spec fn view(&self) -> RecordView {
        RecordView { level: self.level, message: self.message@ }
    }
}

/// The view of a record that may be absent.
pub open spec fn record_view(record: Option<Record>) -> Option<RecordView> {
    match record {
        Some(r) => Some(r@),
        None => None,
    }
}

/// The step at which a connection failed beyond recovery.
#[derive(Clone, Copy, Debug, PartialEq, Eq, Structural)]
pub enum FatalCause {
    /// The peer link could not be set up: binding the port or dialing failed.
    PeerSetup,
    /// The peer listener failed while waiting for a connection.
    PeerAccept,
    /// The peer link was handed an event that answers no pending action.
    PeerProtocol,
    /// The check for a stale editor channel entry failed.
    StaleCheck,
    /// The stale editor channel entry could not be removed.
    StaleRemove,
    /// The editor channel could not be bound.
    EditorSetup,
    /// The editor listener failed while waiting for a session.
    EditorAccept,
    /// No identity is left for a newly accepted editor session.
    EditorIdentities,
    /// The editor loop was handed an event that answers no pending action.
    EditorProtocol,
}

/// The part of the daemon that a failure belongs to.
#[derive(Clone, Copy, Debug, PartialEq, Eq, Structural)]
pub enum Subsystem {
    /// The link to the remote peer.
    PeerLink,
    /// The channel on which editors attach.
    EditorChannel,
}

impl FatalCause {
    /// The subsystem that failed.
    pub open spec fn spec_subsystem(self) -> Subsystem {
        match self {
            FatalCause::PeerSetup | FatalCause::PeerAccept | FatalCause::PeerProtocol => {
                Subsystem::PeerLink
            },
            _ => Subsystem::EditorChannel,
        }
    }

    /// The subsystem that failed.
    #[verifier::when_used_as_spec(spec_subsystem)]
    pub fn subsystem(self) -> (subsystem: Subsystem)
        ensures
            subsystem == self.spec_subsystem(),
    {
        match self {
            FatalCause::PeerSetup | FatalCause::PeerAccept | FatalCause::PeerProtocol => {
                Subsystem::PeerLink
            },
            _ => Subsystem::EditorChannel,
        }
    }

    /// The words that open the diagnostic of a failure with this cause.
    pub open spec fn spec_headline(self) -> Seq<char> {
        match self {
            FatalCause::PeerSetup | FatalCause::PeerAccept | FatalCause::PeerProtocol => {
                "Failed to make connection"@
            },
            FatalCause::StaleCheck => "Failed to check existence of path"@,
            FatalCause::StaleRemove => "Could not remove socket"@,
            _ => "Failed to make editor connection"@,
        }
    }

    /// The words that open the diagnostic of a failure with this cause.
    pub fn headline(self) -> (words: &'static str)
        ensures
            words@ == self.spec_headline(),
    {
        match self {
            FatalCause::PeerSetup | FatalCause::PeerAccept | FatalCause::PeerProtocol => {
                "Failed to make connection"
            },
            FatalCause::StaleCheck => "Failed to check existence of path",
            FatalCause::StaleRemove => "Could not remove socket",
            _ => "Failed to make editor connection",
        }
    }
}

/// A failure that ends the process: where it happened and why.
#[derive(Clone, Debug, PartialEq, Eq)]
pub struct Fatal {
    pub cause: FatalCause,
    /// The underlying error in words.
    pub detail: String,
}

/// A fatal failure with its detail as a sequence of characters.
#[verifier::ext_equal]
pub struct FatalView {
    pub cause: FatalCause,
    pub detail: Seq<char>,
}

impl View for Fatal {
    type V = FatalView;

    open spec fn view(&self) -> FatalView {
        FatalView { cause: self.cause, detail: self.detail@ }
    }
}

impl FatalView {
    /// The message shown when the process ends: the headline of the cause,
    /// a colon and a space, then the detail.
    pub open spec fn diagnostic(self) -> Seq<char> {
        self.cause.spec_headline() + ": "@ + self.detail
    }
}

impl Fatal {
    /// The message to show when the process ends on this failure.
    pub fn diagnostic(&self) -> (message: String)
        ensures
            message@ == self@.diagnostic(),
    {
        let mut message = self.cause.headline().to_owned();
        message.append(": ");
        message.append(self.detail.as_str());
        message
    }
}

/// The detail of a failure caused by an event that answers no pending action.
pub open spec fn out_of_turn_detail() -> Seq<char> {
    "event out of turn"@
}

/// The detail of a failure caused by running out of editor identities.
pub open spec fn identities_detail() -> Seq<char> {
    "editor identities exhausted"@
}

} // verus!
