//! A transport-free core for a music-catalog web API.
//!
//! The crate decides what to ask of the remote service and what to make of the
//! answers: authenticated request construction, rate-limit back-off, the
//! cache-or-fetch protocol, bounded pagination and the per-endpoint
//! normalization of decoded responses.  Sending requests, sleeping, reading
//! the cache and decoding JSON are left to the caller, which feeds the
//! outcomes back in as plain values.

pub mod album;
pub mod api;
pub mod artist;
pub mod cache;
pub mod data;
pub mod error;
pub mod image;
pub mod library;
pub mod link;
pub mod pages;
pub mod playlist;
pub mod recommend;
pub mod request;
pub mod retry;
pub mod search;
pub mod text;

pub use api::{Load, LoadAllPages, LoadCached, SendEmptyJson, WebApi};
pub use error::Error;
pub use request::AuthenticatedRequest;
