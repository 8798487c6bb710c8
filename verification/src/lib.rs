//! Session authentication and storage-path rules for a small gateway in
//! front of an S3-compatible object store.

pub mod api;
pub mod auth;
pub mod cookie;
pub mod r2;
pub mod sessions;
pub mod text;
