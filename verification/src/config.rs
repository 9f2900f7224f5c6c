//! The application configuration the server process is started with.
//! Reading it from files and the environment is the process's own
//! concern; these are the plain values it hands around.

use vstd::prelude::*;

verus! {

#[derive(Debug, Clone)]
pub struct ServerConfig {
    pub host: String,
    pub port: u16,
    pub timeout: u64,
}

#[derive(Debug, Clone)]
pub struct CorsConfig {
    pub allowed_origins: Vec<String>,
    pub allowed_methods: Vec<String>,
    pub allowed_headers: Vec<String>,
}

#[derive(Debug, Clone)]
pub struct LoggingConfig {
    pub level: String,
    pub format: String,
}

#[derive(Debug, Clone)]
pub struct StaticFilesConfig {
    pub path: String,
    pub max_age: u64,
}

#[derive(Debug, Clone)]
pub struct SessionConfig {
    pub secret: String,
    pub timeout: u64,
}

#[derive(Debug, Clone)]
pub struct WebSocketConfig {
    pub max_connections: u32,
    pub heartbeat_interval: u64,
}

} // verus!
