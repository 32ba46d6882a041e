//! Diagnostic adapter core: configuration, the runtime-update endpoints, the
//! reload procedure and the request handling rules of the SOVD web server.

pub mod config;
pub mod runtimefiles;
pub mod string_map;
pub mod text;
pub mod toml_tree;
pub mod trace;
pub mod update;
pub mod uri_rewrite;
pub mod webserver;
