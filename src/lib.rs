//! Credential vault and connection manager for an S3-compatible object store.

pub mod codec;
pub mod credentials;
pub mod s3;
