//! A hybrid sequence container that keeps its first `N` elements in a
//! fixed-capacity inline buffer and migrates, once and irreversibly, to a
//! heap-backed growable buffer as soon as an operation needs more room.
//!
//! The crate also ships a small configuration loader that turns a text blob
//! in one of two formats into a structured record.

pub mod config;
pub mod storage_vec;

pub use config::deserialize_config;
pub use config::Config;
pub use config::ConfigDeserializer;
pub use config::ConfigError;
pub use config::JsonDeserializer;
pub use config::YmlDeserializer;
pub use storage_vec::LocalStorageVec;
pub use storage_vec::LocalStorageVecBorrowIter;
pub use storage_vec::LocalStorageVecIter;
