pub mod cli;
pub mod config;
pub mod error;
pub mod exporter;
pub mod model;
pub mod path;
pub mod reply;
pub mod text;
pub mod thirdparty;
