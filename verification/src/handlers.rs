//! What the HTTP interface does with a request: the model gateway, the turn
//! orchestrator and the stream relay.

pub mod ai;
pub mod message_handlers;
pub mod session_handlers;
pub mod stream_handlers;
