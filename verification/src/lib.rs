//! Dynamic DNS maintenance: resolve the IPv4 address of a local network
//! interface and converge one record of a remote DNS zone onto it.
//!
//! The library holds the decisions of a run as a state machine over plain
//! values. A caller performs the requests that the machine asks for and hands
//! back what the host and the provider answered.

pub mod search;
pub mod text;
pub mod error;
pub mod iface;
pub mod record;
pub mod json;
pub mod reconcile;
pub mod session;
