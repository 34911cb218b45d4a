//! Broker daemon core: a filesystem sandbox bounded by one workspace root,
//! and the broker service logic built on it — path containment decisions,
//! a fixed command allow-list, response shaping, and the chat relay.

pub mod messages;
pub mod sandbox;
pub mod server;
