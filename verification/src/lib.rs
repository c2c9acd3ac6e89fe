//! Core logic of a desktop remote for a streaming provider's playback API.
//!
//! The crate covers the authentication subsystem and the command façade:
//! building the provider's consent URL, handling the loopback callback
//! request that delivers the authorization code, the code-for-token and
//! refresh exchanges, the in-memory token store, and the pure decision
//! logic of every playback command. All network I/O is left to the caller,
//! who hands each response back as an [`http::HttpOutcome`].

pub mod auth_url;
pub mod callback;
pub mod commands;
pub mod credential;
pub mod encoding;
pub mod errors;
pub mod http;
pub mod json;
pub mod now_playing;
pub mod play;
pub mod query;
pub mod shuffle;
pub mod store;
pub mod token;
