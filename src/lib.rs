//! Storage backend adapter and chunked uploader for an S3-compatible object
//! store: object keys, listing and error decisions of the backend, the chunk
//! plan of multipart uploads, progress reporting, and account configuration.

pub mod text;
pub mod content;
pub mod upload;
pub mod progress;
pub mod backend;
pub mod r2;
pub mod api;
pub mod helpers;
pub mod usage;
pub mod cli;
