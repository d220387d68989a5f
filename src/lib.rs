//! Webhook authentication and routing, and the decisions of a pull-request
//! merge bot, with their contracts.

pub mod bot;
pub mod config;
pub mod github;
pub mod hex;
pub mod secure;
pub mod server;
pub mod text;
