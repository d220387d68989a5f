//! The source-hosting API: request descriptors, configuration and replies.

pub mod client;
pub mod status;
