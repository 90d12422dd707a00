//! Connection orchestrator: the client-side state machine that attempts
//! connectivity strategies in a fixed priority order until one succeeds.
//!
//! The embedding runtime performs the actual network work of each strategy
//! (punch probes, handshakes, relay setup) and reports every resolution back
//! through [`Attempt::resolve_strategy`]; this module decides which strategy
//! runs next, when the attempt is over, and what the caller is told.

use vstd::prelude::*;
use vstd::string::*;
use crate::connection::{ConnectionManager, ConnectionStatus};

verus! {

/// A connectivity strategy, in the order they are attempted.
#[derive(Clone, Copy, Debug, PartialEq, Eq, Structural)]
pub enum Scheme {
    /// Peer-to-peer hole punch against the peer's candidate addresses.
    HolePunch,
    /// Direct handshake against the peer's most recently reported endpoint.
    DynamicIp,
    /// Tunnel routed through a designated relay node; terminal strategy.
    Relay,
}

/// Position of a scheme in the fixed priority order.
pub open spec fn scheme_rank(s: Scheme) -> int {
    match s {
        Scheme::HolePunch => 0,
        Scheme::DynamicIp => 1,
        Scheme::Relay => 2,
    }
}

/// The scheme at a given position of the priority order.
pub open spec fn scheme_at(rank: int) -> Scheme
    recommends
        0 <= rank < 3,
{
    if rank == 0 {
        Scheme::HolePunch
    } else if rank == 1 {
        Scheme::DynamicIp
    } else {
        Scheme::Relay
    }
}

/// Everything the caller supplies about the peer; read-only during an attempt.
pub struct PeerDescriptor {
    /// The peer's tunnel public key.
    pub public_key: String,
    /// Candidate addresses for the hole-punch strategy, ordered by preference.
    pub candidates: Vec<String>,
    /// Session token authorizing the attempt.
    pub session_token: String,
}

/// How one strategy's network work resolved, as observed by the runtime.
pub enum StrategyResult {
    /// The strategy completed a usable path to `endpoint` within its timeout.
    Succeeded { endpoint: String },
    /// The strategy failed outright with a cause.
    Failed { error: String },
    /// The strategy's timeout elapsed without success.
    TimedOut,
}

/// The cause a resolution contributes to a failed outcome.
pub open spec fn spec_result_error(r: StrategyResult) -> Seq<char> {
    match r {
        StrategyResult::Succeeded { .. } => Seq::<char>::empty(),
        StrategyResult::Failed { error } => error@,
        StrategyResult::TimedOut => "timed out"@,
    }
}

/// Terminal outcome of one `establish` attempt.
pub enum ConnectionOutcome {
    Connected {
        /// The strategy that won.
        scheme: Scheme,
        /// The address the tunnel was negotiated against.
        negotiated_endpoint: String,
        /// Set when the path runs through a relay and costs extra latency.
        high_latency: bool,
    },
    Failed {
        /// Every strategy that was attempted, in the order it ran.
        attempted: Vec<Scheme>,
        /// The cause reported by the last strategy.
        last_error: String,
    },
}

/// Rejection of a call that tried to begin an attempt.
#[derive(Clone, Copy, Debug, PartialEq, Eq, Structural)]
pub enum EstablishError {
    /// Another attempt for this session is still `Connecting`.
    AlreadyConnecting,
}

/// One in-flight `establish` attempt.
pub struct Attempt {
    /// Strategies already resolved as failed, in the order they ran.
    pub attempted: Vec<Scheme>,
    /// The strategy currently entitled to run.
    pub current: Scheme,
    /// The strategy whose peer configuration is applied to the tunnel device,
    /// if any; cleared when a strategy's failure is resolved.
    pub applied: Option<Scheme>,
}

impl Attempt {
    /// The attempt's invariant: the failed strategies are exactly the prefix
    /// of the priority order below the one in flight, and any device
    /// configuration belongs to the strategy in flight.
    pub open spec fn wf(self) -> bool {
        &&& self.attempted@.len() == scheme_rank(self.current)
        &&& forall|i: int|
            0 <= i < self.attempted@.len() ==> #[trigger] self.attempted@[i] == scheme_at(i)
        &&& (self.applied is None || self.applied == Some(self.current))
    }

    /// Record that the runtime is about to run the current strategy and will
    /// apply its peer configuration to the tunnel device.
    pub fn begin_strategy(&mut self)
        requires
            old(self).wf(),
            old(self).applied is None,
        ensures
            final(self).wf(),
            final(self).applied == Some(old(self).current),
            final(self).current == old(self).current,
            final(self).attempted == old(self).attempted,
    {
        self.applied = Some(self.current);
    }

    /// Resolve the current strategy. On success the attempt is over and the
    /// winner's configuration stays applied. On failure or timeout the
    /// strategy's configuration is reverted before anything else may run;
    /// the next strategy in priority order takes over, unless the terminal
    /// relay strategy itself failed, which ends the attempt with every
    /// attempted strategy and the last cause.
    pub fn resolve_strategy(&mut self, result: StrategyResult) -> (r: Option<ConnectionOutcome>)
        requires
            old(self).wf(),
        ensures
            final(self).wf(),
            (match result {
                StrategyResult::Succeeded { endpoint } => {
                    &&& r matches Some(
                        ConnectionOutcome::Connected { scheme, negotiated_endpoint, high_latency },
                    )
                    &&& scheme == old(self).current
                    &&& negotiated_endpoint == endpoint
                    &&& high_latency == (old(self).current is Relay)
                    &&& final(self).applied == old(self).applied
                    &&& final(self).current == old(self).current
                },
                _ => {
                    &&& final(self).applied is None
                    &&& if old(self).current is Relay {
                        &&& r matches Some(ConnectionOutcome::Failed { attempted, last_error })
                        &&& attempted@ == old(self).attempted@.push(old(self).current)
                        &&& last_error@ == spec_result_error(result)
                    } else {
                        &&& r is None
                        &&& final(self).current == scheme_at(scheme_rank(old(self).current) + 1)
                        &&& final(self).attempted@ == old(self).attempted@.push(old(self).current)
                    }
                },
            }),
    {
        match result {
            StrategyResult::Succeeded { endpoint } => {
                let high_latency = matches!(self.current, Scheme::Relay);
                Some(
                    ConnectionOutcome::Connected {
                        scheme: self.current,
                        negotiated_endpoint: endpoint,
                        high_latency,
                    },
                )
            },
            _ => {
                self.applied = None;
                let last = self.current;
                match self.current {
                    Scheme::HolePunch => {
                        self.attempted.push(last);
                        self.current = Scheme::DynamicIp;
                        None
                    },
                    Scheme::DynamicIp => {
                        self.attempted.push(last);
                        self.current = Scheme::Relay;
                        None
                    },
                    Scheme::Relay => {
                        let mut attempted = copy_schemes(&self.attempted);
                        attempted.push(last);
                        let last_error = result_error(result);
                        Some(ConnectionOutcome::Failed { attempted, last_error })
                    },
                }
            },
        }
    }
}

/// The cause string a resolution contributes to a failed outcome.
fn result_error(result: StrategyResult) -> (r: String)
    ensures
        r@ == spec_result_error(result),
{
    match result {
        StrategyResult::Succeeded { .. } => String::new(),
        StrategyResult::Failed { error } => error,
        StrategyResult::TimedOut => {
            let mut r = String::new();
            r.append("timed out");
            r
        },
    }
}

/// An owned copy of a strategy history.
fn copy_schemes(v: &Vec<Scheme>) -> (r: Vec<Scheme>)
    ensures
        r@ == v@,
{
    let mut r: Vec<Scheme> = Vec::new();
    let mut i: usize = 0;
    while i < v.len()
        invariant
            i <= v.len(),
            r@ == v@.subrange(0, i as int),
        decreases v.len() - i,
    {
        r.push(v[i]);
        i = i + 1;
    }
    proof {
        assert(v@.subrange(0, v@.len() as int) == v@);
    }
    r
}

/// Begin an `establish` attempt for one session. A session whose status is
/// already `Connecting` has an attempt in flight and the call is rejected
/// without touching it; otherwise the status becomes `Connecting` and a fresh
/// attempt starts at the head of the priority order.
pub fn start_connection(mgr: &mut ConnectionManager) -> (r: Result<Attempt, EstablishError>)
    ensures
        old(mgr).status is Connecting ==> {
            &&& r matches Err(EstablishError::AlreadyConnecting)
            &&& *final(mgr) == *old(mgr)
        },
        !(old(mgr).status is Connecting) ==> {
            &&& r matches Ok(a)
            &&& final(mgr).status is Connecting
            &&& a.wf()
            &&& a.attempted@.len() == 0
            &&& a.current is HolePunch
            &&& a.applied is None
        },
{
    let accepted = mgr.begin_attempt();
    if accepted {
        Ok(Attempt { attempted: Vec::new(), current: Scheme::HolePunch, applied: None })
    } else {
        Err(EstablishError::AlreadyConnecting)
    }
}

/// The display name of a scheme.
pub open spec fn spec_scheme_name(s: Scheme) -> Seq<char> {
    match s {
        Scheme::HolePunch => "HolePunch"@,
        Scheme::DynamicIp => "DynamicIP"@,
        Scheme::Relay => "Relay"@,
    }
}

/// The display name of a scheme.
pub fn scheme_name(s: Scheme) -> (r: String)
    ensures
        r@ == spec_scheme_name(s),
{
    let mut r = String::new();
    match s {
        Scheme::HolePunch => r.append("HolePunch"),
        Scheme::DynamicIp => r.append("DynamicIP"),
        Scheme::Relay => r.append("Relay"),
    }
    r
}

/// Publish a terminal outcome to the session's status cell: `Connected` with
/// the winning scheme's name, or `Failed` with the last cause. Only an attempt
/// that is still `Connecting` can be finalized, and only once.
pub fn finish(mgr: &mut ConnectionManager, outcome: &ConnectionOutcome)
    requires
        old(mgr).status is Connecting,
    ensures
        (outcome matches ConnectionOutcome::Connected { scheme, .. } ==> {
            &&& final(mgr).status matches ConnectionStatus::Connected(name)
            &&& name@ == spec_scheme_name(*scheme)
        }),
        (outcome matches ConnectionOutcome::Failed { last_error, .. } ==> {
            &&& final(mgr).status matches ConnectionStatus::Failed(reason)
            &&& reason@ == last_error@
        }),
{
    match outcome {
        ConnectionOutcome::Connected { scheme, .. } => {
            mgr.set_connected(scheme_name(*scheme));
        },
        ConnectionOutcome::Failed { last_error, .. } => {
            mgr.set_failed(last_error.clone());
        },
    }
}

/// Pick the winning hole-punch candidate among the replies gathered over the
/// full timeout window: the lowest observed round-trip time wins, and among
/// equal round-trip times the reply listed first. Returns the position of the
/// winner in `replies`, or nothing when no candidate replied.
pub fn best_candidate(replies: &Vec<CandidateReply>) -> (r: Option<usize>)
    ensures
        (r is None) == (replies@.len() == 0),
        r matches Some(p) ==> {
            &&& 0 <= p < replies@.len()
            &&& forall|i: int|
                0 <= i < replies@.len() ==> replies@[p as int].rtt_ms <= #[trigger] replies@[i].rtt_ms
            &&& forall|i: int|
                0 <= i < p ==> replies@[p as int].rtt_ms < #[trigger] replies@[i].rtt_ms
        },
{
    if replies.len() == 0 {
        return None;
    }
    let mut best: usize = 0;
    let mut i: usize = 1;
    while i < replies.len()
        invariant
            replies@.len() > 0,
            0 <= best < i <= replies@.len(),
            forall|j: int|
                0 <= j < i ==> replies@[best as int].rtt_ms <= #[trigger] replies@[j].rtt_ms,
            forall|j: int|
                0 <= j < best ==> replies@[best as int].rtt_ms < #[trigger] replies@[j].rtt_ms,
        decreases replies@.len() - i,
    {
        if replies[i].rtt_ms < replies[best].rtt_ms {
            best = i;
        }
        i = i + 1;
    }
    Some(best)
}

/// One hole-punch reply: which candidate answered and how fast.
#[derive(Clone, Copy, Debug, PartialEq, Eq, Structural)]
pub struct CandidateReply {
    /// Index of the candidate address in the peer descriptor.
    pub candidate: usize,
    /// Observed round-trip time, in milliseconds.
    pub rtt_ms: u64,
}

/// Strategies resolve in the fixed priority order: whatever the history of an
/// attempt, the strategies it has resolved are exactly the prefix of the
/// priority order below the one in flight, so a strategy never runs before
/// every higher-priority strategy has been resolved.
pub proof fn lemma_priority_order(a: Attempt)
    requires
        a.wf(),
    ensures
        a.attempted@.len() == scheme_rank(a.current),
        forall|i: int| 0 <= i < a.attempted@.len() ==> #[trigger] a.attempted@[i] == scheme_at(i),
{
}

/// No residual configuration: whenever an attempt has peer configuration
/// applied to the tunnel device, it is the in-flight strategy's own, never
/// that of an earlier, failed strategy. A successful `establish` therefore
/// leaves exactly the winner's configuration behind.
pub proof fn lemma_no_residual_config(a: Attempt)
    requires
        a.wf(),
        a.applied is Some,
    ensures
        a.applied == Some(a.current),
        forall|i: int| 0 <= i < a.attempted@.len() ==> #[trigger] a.attempted@[i] != a.current,
{
    assert forall|i: int| 0 <= i < a.attempted@.len() implies #[trigger] a.attempted@[i]
        != a.current by {
        assert(a.attempted@[i] == scheme_at(i));
        assert(scheme_rank(scheme_at(i)) == i);
        assert(scheme_rank(a.current) == a.attempted@.len());
    }
}

} // verus!
