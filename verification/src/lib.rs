//! Permission resolution for a game server: wildcard matching of permission
//! strings, and the decisions around it.

pub mod commands;
pub mod config;
pub mod db;
pub mod identity;
pub mod json;
pub mod matching;
pub mod permissions;
pub mod plugin;
pub mod store;
pub mod text;
pub mod utils;

pub use crate::plugin::MyPlugin;
