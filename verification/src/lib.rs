//! Terminal acquisition by rendezvous: a coordinator asks a remote host to
//! open a terminal running a short-lived helper, listens on a loopback port
//! for that helper to connect, and reads one line identifying the terminal's
//! device. This crate holds the verified core: the coordinator's decision
//! logic as a state machine over plain events and actions, the construction
//! of the remote requests, and the handling of the identity line.

pub mod coordinator;
pub mod handle;
pub mod identity;
pub mod request;
