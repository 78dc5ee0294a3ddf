//! Client-side logic for a model registry: request construction, artifact
//! selection, streamed transfers and the rendering of registry answers.
//!
//! Everything here is pure: callers perform the network and file work and hand
//! the library plain values.

pub mod api;
