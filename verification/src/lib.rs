//! Connection-establishment engine for a NAT-traversed private network tunnel.
//!
//! The crate verifies the decision logic of a node agent: the per-session
//! connection state machine and its strategy orchestrator, the tunnel device
//! lifecycle model, the periodic WAN-endpoint reporting logic, and the UDP
//! rendezvous wire codec. Network and device I/O is performed by the embedding
//! runtime, which drives these state machines with the events it observes.

pub mod auth;
pub mod connection;
pub mod orchestrator;
pub mod rendezvous;
pub mod report;
pub mod tunnel;
