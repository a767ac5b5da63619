//! Verified marshalling core for plugins of the xante dialog host.

pub mod application;
pub mod arguments;
pub mod host;
pub mod item;
pub mod logger;
pub mod menu;
pub mod plugin;
pub mod text;
