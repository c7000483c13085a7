//! A read-only name directory and the answers a lookup service gives from it.
//!
//! The directory is built once from a JSON text and never changes afterwards.
//! Three endpoints read it: resolving a name to its address token, counting
//! the entries, and a liveness greeting that reads nothing.

pub mod directory;
pub mod json;
pub mod profile;
pub mod service;

pub use directory::{Directory, LoadError};
pub use profile::Profile;
pub use service::{ens_fn, ping_fn, stats_fn, Media, Reply, Resolution, ResolveError, Stats};
