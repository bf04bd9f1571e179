//! Gateway configuration: the settings a mixnet gateway runs with, the builder
//! methods that change them, the default key and storage locations derived from
//! the gateway's id, and the textual form of its listening address.

pub mod text;
pub mod ip;
pub mod paths;
pub mod outside;
pub mod config;
pub mod econ;

pub use config::{Config, ConfigError, DebugSettings, Gateway, Logging, missing_string_value};
pub use ip::IpAddress;
