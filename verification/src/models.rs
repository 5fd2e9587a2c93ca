//! The records of the conversation store.

pub mod message;
pub mod session;
