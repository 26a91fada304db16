//! Bootstrap launcher library: keeps a versioned bundle of script assets
//! synchronized into a user-writable cache, chooses between a development
//! checkout and the synced cache, and prepares the delegated interpreter
//! invocation. All filesystem and process effects are requested through
//! explicit actions and events, so the decision logic here is verified
//! against a model of the filesystem.

pub mod cache;
pub mod delegate;
pub mod fs_model;
pub mod paths;
pub mod registry;
pub mod resolve;
pub mod sync;
pub mod text;
