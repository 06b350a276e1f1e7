//! Hover documentation for a terminal emulator's `key = value` configuration
//! files: the registry of configuration keys, the tracked document, the
//! resolution of a cursor line to a key, and the dispatch of editor messages.

pub mod definitions;
pub mod document;
pub mod handlers;
pub mod hover;
pub mod strings;

pub use crate::definitions::get_config_param_description;
