//! The engine-side pieces of the library: the KV pool behind its trait seam,
//! the backend's step results and a GPU-free double, and the decisions of the
//! engine actor's loop.

pub mod actor;
pub mod backend;
pub mod kv;
pub mod mock;
