//! Session lifecycle for a cloud CLI: PKCE login, a single-use callback
//! listener, session persistence with atomic replacement, expiry-driven
//! refresh, and credential injection for authenticated calls.

pub mod callback;
pub mod codec;
pub mod credentials;
pub mod encoding;
pub mod errors;
pub mod manager;
pub mod pkce;
pub mod rpc;
pub mod session;
pub mod store;
pub mod strutil;
pub mod templates;
pub mod vars;
