//! Serve an immutable, in-memory tree of files over HTTP: resolve a request
//! path against the tree (direct file, directory index, redirect to the
//! canonical directory URL, or not found) and build the response for the
//! outcome.

pub mod config;
pub mod laws;
pub mod resolve;
pub mod response;
pub mod store;

pub use config::EmbedConfig;
pub use resolve::{resolve, resolve_one, ResolutionOutcome};
pub use response::{render, RenderedResponse};
pub use store::AssetStore;
