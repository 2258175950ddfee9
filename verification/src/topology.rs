//! Topology reporting: what a host tells its operator about the addresses it
//! can be reached at. Discovery is best effort and never decides whether the
//! host goes on to accept its peer.

use crate::decimal::{append_decimal, decimal};
use crate::report::{record_view, Level, Record, RecordView};
use vstd::prelude::*;

verus! {

/// The longest that the discovery of the public address may take, in seconds.
pub const PUBLIC_DISCOVERY_BOUND_SECS: u64 = 1;

/// How an attempt to discover one of the host's addresses ended.
#[derive(Clone, Debug, PartialEq, Eq)]
pub enum Discovery {
    /// The address was found; this is its text.
    Resolved(String),
    /// The attempt completed without an address.
    Unresolved,
    /// The attempt did not complete within its bound.
    TimedOut,
}

/// A discovery outcome with the address as a sequence of characters.
#[verifier::ext_equal]
pub enum DiscoveryView {
    Resolved(Seq<char>),
    Unresolved,
    TimedOut,
}

impl View for Discovery {
    type V = DiscoveryView;

    open spec fn view(&self) -> DiscoveryView {
        match self {
            Discovery::Resolved(address) => DiscoveryView::Resolved(address@),
            Discovery::Unresolved => DiscoveryView::Unresolved,
            Discovery::TimedOut => DiscoveryView::TimedOut,
        }
    }
}

/// An address and a port as one endpoint: the address, a colon, the port in
/// decimal.
pub open spec fn endpoint(address: Seq<char>, port: u16) -> Seq<char> {
    address + ":"@ + decimal(port as nat)
}

/// The record of a local address discovery: the endpoint when the address
/// was found, nothing otherwise.
pub open spec fn local_record(outcome: DiscoveryView, port: u16) -> Option<RecordView> {
    match outcome {
        DiscoveryView::Resolved(address) => Some(
            RecordView {
                level: Level::Info,
                message: "Listening on local TCP: "@ + endpoint(address, port),
            },
        ),
        _ => None,
    }
}

/// The record of a public address discovery: the endpoint when the address
/// was found, a warning when the bound was exceeded, nothing when the
/// attempt completed without an address.
pub open spec fn public_record(outcome: DiscoveryView, port: u16) -> Option<RecordView> {
    match outcome {
        DiscoveryView::Resolved(address) => Some(
            RecordView {
                level: Level::Info,
                message: "Listening on public TCP: "@ + endpoint(address, port),
            },
        ),
        DiscoveryView::TimedOut => Some(
            RecordView { level: Level::Warn, message: "Getting public IP address timed out"@ },
        ),
        DiscoveryView::Unresolved => None,
    }
}

/// Appends the endpoint of `address` and `port` to `out`.
pub fn append_endpoint(out: &mut String, address: &str, port: u16)
    ensures
        final(out)@ == old(out)@ + endpoint(address@, port),
{
    out.append(address);
    out.append(":");
    append_decimal(out, port as u64);
    assert(out@ =~= old(out)@ + endpoint(address@, port));
}

/// The record to emit after the discovery of the local address.
pub fn report_local(outcome: &Discovery, port: u16) -> (record: Option<Record>)
    ensures
        record_view(record) == local_record(outcome@, port),
{
    match outcome {
        Discovery::Resolved(address) => {
            let mut message = "Listening on local TCP: ".to_owned();
            append_endpoint(&mut message, address.as_str(), port);
            Some(Record { level: Level::Info, message })
        },
        _ => None,
    }
}

/// The record to emit after the discovery of the public address.
pub fn report_public(outcome: &Discovery, port: u16) -> (record: Option<Record>)
    ensures
        record_view(record) == public_record(outcome@, port),
{
    match outcome {
        Discovery::Resolved(address) => {
            let mut message = "Listening on public TCP: ".to_owned();
            append_endpoint(&mut message, address.as_str(), port);
            Some(Record { level: Level::Info, message })
        },
        Discovery::TimedOut => {
            let message = "Getting public IP address timed out".to_owned();
            Some(Record { level: Level::Warn, message })
        },
        Discovery::Unresolved => None,
    }
}

} // verus!
