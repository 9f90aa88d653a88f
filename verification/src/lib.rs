//! Client-side logic for a blockchain relay service: a pool of HTTP clients
//! bound to distinct local egress addresses, selected by a configurable
//! algorithm, and the state machine that tracks a submitted bundle or
//! transaction through in-flight and finalization polling to a terminal
//! outcome.

pub mod http_client;
pub mod poller;
