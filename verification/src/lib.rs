//! Client-side core for a paginated, rate-limited JSON API.
//!
//! The crate provides a token-bucket rate limiter with cloneable
//! cross-thread handles, a spin-gate throttler, a typed resource link
//! with response classification into a unified error taxonomy, and a
//! lazily advancing paginated stream, together with the small record
//! types the API serves.

pub mod card;
pub mod error;
pub mod format;
pub mod json;
pub mod limiter;
pub mod list;
pub mod set_code;
pub mod throttle;
pub mod uri;

