//! The settings that the service is started with. They reach the library as
//! values that were already read and validated.

use vstd::prelude::*;

verus! {

#[derive(Debug, Clone, PartialEq, Eq)]
pub struct Config {
    pub server: ServerConfig,
    pub weatherapi: WeatherApiConfig,
    pub cache: CacheConfig,
}

/// Where the service listens.
#[derive(Debug, Clone, PartialEq, Eq)]
pub struct ServerConfig {
    pub host: String,
    pub port: u16,
}

/// How the weather provider is reached.
#[derive(Debug, Clone, PartialEq, Eq)]
pub struct WeatherApiConfig {
    pub key: String,
    pub provider: String,
    pub base_url: String,
}

/// The store's address, how long an entry lives, and how many characters a
/// spatial bucket's name has.
#[derive(Debug, Clone, PartialEq, Eq)]
pub struct CacheConfig {
    pub redis_url: String,
    pub ttl_seconds: u64,
    pub geohash_precision: usize,
}

} // verus!
