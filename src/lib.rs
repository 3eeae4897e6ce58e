//! Peer networking core: address handling, the protocol event and command
//! unions, the discovery-to-dial policy, the bounded event/command queues and
//! the decision step of a node's event loop.

pub mod address;
pub mod command;
pub mod event;
pub mod policy;
pub mod bridge;
pub mod driver;
