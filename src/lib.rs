//! Data-access core of a key-value database browser: connection caching,
//! adaptive key scanning, and binary-safe decoding of stored values.

pub mod cache;
pub mod codec;
pub mod command;
pub mod config;
pub mod keyspace;
pub mod reply;
pub mod retrieval;
pub mod scan;
pub mod text;
pub mod value;

pub use cache::ConnectionManager;
pub use config::RedisConfig;
pub use retrieval::RedisKeyData;
pub use scan::RedisKeyInfo;
pub use value::RedisValue;
