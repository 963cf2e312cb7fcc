//! The shared data model.

pub mod auth;
pub mod pipeline;
pub mod server;
pub mod system;
pub mod template;
pub mod ws;
pub mod alerts;
pub mod api;
pub mod api_token;
pub mod invite_code;
pub mod sandbox;
