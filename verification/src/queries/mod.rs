//! The queries that assemble a record from what the interface replies.

pub mod pcie;
pub mod power;
