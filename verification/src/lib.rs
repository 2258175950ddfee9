//! Connection front door of the synchronization daemon: the decisions of the
//! peer link, the editor accept loop, session identities and topology
//! reporting, as pure functions and state machines.

pub mod decimal;
pub mod editor;
pub mod identity;
pub mod peer;
pub mod report;
pub mod role;
pub mod topology;
