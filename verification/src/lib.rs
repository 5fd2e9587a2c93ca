//! Conversation backend for a learn-by-teaching chat: the turn orchestrator,
//! the model gateway and the stream relay, with the data they exchange.

pub mod clock;
pub mod database;
pub mod handlers;
pub mod ids;
pub mod models;
pub mod text;
