//! The model gateway: the provider's wire shapes, the prompt and the
//! exchange with the provider.

pub mod client;
pub mod model;
pub mod prompt;
