//! Decision logic of a modpack installer pipeline: loader-version
//! resolution, modpack version selection, archive caching, sequential
//! installation, credential bootstrap and profile construction.
//!
//! Network and filesystem work is performed by a surrounding driver; this
//! crate holds the pure decisions the driver follows, with their contracts.

pub mod auth;
pub mod cache;
pub mod error;
pub mod install;
pub mod loader;
pub mod modpack;
pub mod profile;
pub mod strutil;
pub mod version;
