//! Plain configuration and error values. Loading them from files or the
//! environment, and turning errors into transport responses, is the
//! embedding's business; the values themselves live here.

use vstd::prelude::*;

verus! {

pub struct ElasticsearchConfig {
    pub url: String,
    pub index: String,
}

pub struct ServerConfig {
    pub host: String,
    pub port: u16,
}

pub struct CacheConfig {
    pub enabled: bool,
    pub redis_url: String,
    pub ttl_seconds: u64,
}

pub struct DatabaseConfig {
    pub url: String,
}

pub struct RedisConfig {
    pub url: String,
}

pub struct AppConfig {
    pub elasticsearch: ElasticsearchConfig,
    pub server: ServerConfig,
    pub cache: CacheConfig,
    pub database: DatabaseConfig,
}

/// Application-level failure classes, each carrying a description.
pub enum AppError {
    DatabaseError(String),
    InvalidInput(String),
    InternalError(String),
}

/// One key/value pair of system configuration.
pub struct SystemConfig {
    pub key: String,
    pub value: String,
}

} // verus!
