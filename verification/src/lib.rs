//! Configuration management for services configured through their environment.
//!
//! The library holds the configuration records, the rules that decide what a
//! loaded value means (run modes, deployment environments, product ids,
//! database URLs), and the defaults that fill fields the environment leaves out.

pub mod text;

pub mod common;
pub mod database;
pub mod error;
pub mod product;
pub mod redis;
pub mod server;
pub mod sources;

pub use common::{default_environment, default_log_level, default_port, CommonConfig};
pub use database::{
    default_connection_timeout, default_max_connections, DatabaseConfig, DatabaseUrl, UrlParseFailure,
};
pub use error::ConfigError;
pub use product::ProductConfig;
pub use redis::{default_redis_pool_size, RedisConfig};
pub use server::{default_host, RunMode, ServerConfig};
