//! Per-session connection state: the status cell that one orchestrator writes
//! and any number of status queries read.
//!
//! The embedding runtime keeps one `ConnectionManager` per session behind a
//! mutual-exclusion guard; every observation goes through the accessors here,
//! so an external reader only ever sees one of the four defined states.

use vstd::prelude::*;
use vstd::string::*;

verus! {

/// Externally observable state of one connection session.
///
/// Transitions are monotonic within one attempt:
/// `Disconnected -> Connecting -> (Connected | Failed)`; a fresh attempt
/// re-enters `Connecting` from any settled state.
#[derive(Debug, Clone, PartialEq)]
pub enum ConnectionStatus {
    Disconnected,
    /// An attempt is in flight; no terminal outcome yet.
    Connecting,
    /// Connected through the named scheme.
    Connected(String),
    /// The attempt exhausted its strategies; carries the final cause.
    Failed(String),
}

/// Owner of the status cell for one session.
pub struct ConnectionManager {
    pub status: ConnectionStatus,
}

impl ConnectionManager {
    /// A fresh session starts out disconnected.
    pub fn new() -> (r: Self)
        ensures
            r.status is Disconnected,
    {
        ConnectionManager { status: ConnectionStatus::Disconnected }
    }

    /// Begin a new attempt. A session whose status is `Connecting` already has
    /// an attempt in flight, and a second caller is turned away without
    /// touching that attempt's state; from any settled state the session
    /// re-enters `Connecting`.
    pub fn begin_attempt(&mut self) -> (accepted: bool)
        ensures
            accepted == !(old(self).status is Connecting),
            accepted ==> final(self).status is Connecting,
            !accepted ==> *final(self) == *old(self),
    {
        match self.status {
            ConnectionStatus::Connecting => false,
            _ => {
                self.status = ConnectionStatus::Connecting;
                true
            },
        }
    }

    /// Finalize the in-flight attempt as connected through `scheme`.
    pub fn set_connected(&mut self, scheme: String)
        requires
            old(self).status is Connecting,
        ensures
            final(self).status == ConnectionStatus::Connected(scheme),
    {
        self.status = ConnectionStatus::Connected(scheme);
    }

    /// Finalize the in-flight attempt as failed for `reason`.
    pub fn set_failed(&mut self, reason: String)
        requires
            old(self).status is Connecting,
        ensures
            final(self).status == ConnectionStatus::Failed(reason),
    {
        self.status = ConnectionStatus::Failed(reason);
    }

    /// A status query: an owned copy of the current status, equal to the one
    /// stored, so a reader holds the guard only for the duration of the copy.
    pub fn status_snapshot(&self) -> (r: ConnectionStatus)
        ensures
            r == self.status,
    {
        match &self.status {
            ConnectionStatus::Disconnected => ConnectionStatus::Disconnected,
            ConnectionStatus::Connecting => ConnectionStatus::Connecting,
            ConnectionStatus::Connected(scheme) => ConnectionStatus::Connected(scheme.clone()),
            ConnectionStatus::Failed(reason) => ConnectionStatus::Failed(reason.clone()),
        }
    }
}

/// Every observable status is one of the four defined states: the status cell
/// holds nothing an external reader could see as an intermediate value.
pub proof fn lemma_status_always_defined(s: ConnectionStatus)
    ensures
        s is Disconnected || s is Connecting || s is Connected || s is Failed,
{
}

/// Render the current status for a user-facing query.
pub fn get_connection_status(mgr: &ConnectionManager) -> (r: String)
    ensures
        mgr.status is Disconnected ==> r@ == "Disconnected"@,
        mgr.status is Connecting ==> r@ == "Connecting..."@,
        mgr.status matches ConnectionStatus::Connected(scheme) ==> r@ == "Connected ("@ + scheme@
            + ")"@,
        mgr.status matches ConnectionStatus::Failed(reason) ==> r@ == "Failed: "@ + reason@,
{
    match &mgr.status {
        ConnectionStatus::Disconnected => {
            let mut r = String::new();
            r.append("Disconnected");
            r
        },
        ConnectionStatus::Connecting => {
            let mut r = String::new();
            r.append("Connecting...");
            r
        },
        ConnectionStatus::Connected(scheme) => {
            let mut r = String::new();
            r.append("Connected (");
            r.append(scheme.as_str());
            r.append(")");
            r
        },
        ConnectionStatus::Failed(reason) => {
            let mut r = String::new();
            r.append("Failed: ");
            r.append(reason.as_str());
            r
        },
    }
}

} // verus!
