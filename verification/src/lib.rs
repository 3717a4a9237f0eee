//! Parts of a conductor: how the requests of apps are answered and which zome calls are run, which
//! dependencies validation waits for and when it looks for them again, and which hashes of arc slices
//! are stored.

pub mod action_hash;
pub mod app_api;
pub mod app_interface;
pub mod dependency_calls;
pub mod dependency_laws;
pub mod interface_calls;
pub mod interface_laws;
pub mod missing_dep_backoff;
pub mod retry_calls;
pub mod retry_laws;
pub mod slice_hash;
pub mod slice_hash_calls;
pub mod slice_hash_laws;
pub mod time;
pub mod validation_deps;
pub mod zome_call_admission;
