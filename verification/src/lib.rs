//! Session authentication and refresh-token rotation for a small API gateway.

pub mod address;
pub mod ai;
pub mod backend;
pub mod error;
pub mod laws;
pub mod reply;
pub mod request;
pub mod session;
pub mod state;
pub mod store;
pub mod text;
pub mod token;
