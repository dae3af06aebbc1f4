//! Verified core of a daemon that reports system information to an MQTT broker:
//! connection settings, plugin configuration, topics and the decisions of each plugin.
pub mod text;
pub mod config;
pub mod plugins;
