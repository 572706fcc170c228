//! A URL-keyed file cache: stable cache keys derived from URLs, the decisions
//! behind resolving a URL to a local file, and cache size accounting.

pub mod behavior;
pub mod config;
pub mod error;
pub mod extension;
pub mod fetch;
pub mod greet;
pub mod hex;
pub mod key;
pub mod maintain;
pub mod model;
pub mod protocol;
pub mod resolve;
pub mod store;
pub mod text;
