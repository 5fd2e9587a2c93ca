//! The rows of the conversation store: how records are written to columns
//! of text and read back.

pub mod messages;
pub mod sessions;
