//! A typed client for the speedrun.com REST API.
//!
//! A request is a value, made with a builder, that names a method, a path,
//! query parameters and a body. The query core in [`api::query`] assembles
//! the wire request, hands it to a transport exactly once, and turns what
//! comes back into a value or a typed error. [`api::paged`] walks through
//! paged collections one page at a time.
//!
//! Query strings are written by `serde_urlencoded` ([`api::form`]); JSON text
//! is read and written by `serde_json` ([`json`]).

pub mod api;
pub mod json;
pub mod text;
pub mod types;
