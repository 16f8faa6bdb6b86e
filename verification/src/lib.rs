//! Client-side core for the Twitch "kraken" HTTP API: credentials, request
//! assembly, error classification and OAuth authorization URLs.
//!
//! The crate performs no network or file access itself. A verb is handed the
//! transport as a function from a [`request::Request`] to what came back, and
//! the decoder as a function from the body to a value, so the same verified
//! code serves a real HTTP client and a simulated one.
//!
//! - [`credentials`]: the application identifier and the token, and their
//!   form as a TOML document.
//! - [`client`]: the client and its verbs.
//! - [`request`]: what a request consists of, and its header fields.
//! - [`response`]: the error kinds, and how a reply becomes an outcome.
//! - [`auth`]: permissions and the addresses that start the two grant flows.
//! - [`nesting`]: how deep a TOML text nests, judged before it is parsed.
//! - [`headers`], [`table`], [`text`]: what is taken on trust from the HTTP
//!   client's header collection, the TOML library and the standard formatter.

pub mod auth;
pub mod client;
pub mod credentials;
pub mod headers;
pub mod nesting;
pub mod request;
pub mod response;
pub mod table;
pub mod text;

pub use client::{new, TwitchClient};
pub use credentials::Credentials;
