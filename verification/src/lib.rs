//! A remote build-cache gateway library: artifact addressing, the storage
//! contract that every backend satisfies, an in-memory reference backend,
//! the bookkeeping of the object-store multipart upload protocol, and the
//! decision logic of the HTTP gateway.

pub mod errors;
pub mod storage;
pub mod memory;
pub mod fs_storage;
pub mod s3_storage;
pub mod cache;
pub mod gateway;
