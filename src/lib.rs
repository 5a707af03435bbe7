//! Script-driven filtering of proxy nodes, with the settings that carry the
//! scripting engine.
pub mod engine;
pub mod extra_settings;
pub mod filter;
pub mod json;
pub mod proxy;
