//! The role a daemon plays towards its single peer.

use vstd::prelude::*;

verus! {

/// How this daemon reaches its peer: it either waits for the peer or dials it.
/// The choice is made once, when the daemon starts.
#[derive(Clone, Debug, PartialEq, Eq)]
pub enum PeerConnectionInfo {
    /// Host: listen for the peer on this TCP port.
    Accept(u16),
    /// Joiner: dial the peer at this `host:port` address.
    Connect(String),
}

/// A role with the joiner's address as a sequence of characters.
#[verifier::ext_equal]
pub enum RoleView {
    Accept(u16),
    Connect(Seq<char>),
}

impl View for PeerConnectionInfo {
    type V = RoleView;

    open spec fn view(&self) -> RoleView {
        match self {
            PeerConnectionInfo::Accept(port) => RoleView::Accept(*port),
            PeerConnectionInfo::Connect(address) => RoleView::Connect(address@),
        }
    }
}

impl PeerConnectionInfo {
    /// True exactly for the hosting role.
    #[must_use]
    pub fn is_host(&self) -> (host: bool)
        ensures
            host == (self@ is Accept),
            host != (self@ is Connect),
    {
        match self {
            PeerConnectionInfo::Accept(_) => true,
            PeerConnectionInfo::Connect(_) => false,
        }
    }
}

/// A daemon is a host or a joiner, never both and never neither.
pub proof fn role_is_exactly_one(role: RoleView)
    ensures
        (role is Accept) != (role is Connect),
{
}

} // verus!
