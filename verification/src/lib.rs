//! Project metadata, read out of the configuration files of several
//! ecosystems into one record, and compared across the files of one project.

pub mod checker;
pub mod config;
pub mod document;
pub mod json_reader;
pub mod laws;
pub mod loader;
pub mod mapper;
pub mod metadata;
pub mod ordered_map;
pub mod text;
pub mod toml_reader;
