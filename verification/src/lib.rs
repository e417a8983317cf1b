//! Discovery and classification of network endpoints, and the data from
//! which connector descriptions are rendered.

pub mod config;
pub mod connector_generator;
pub mod discovery;
pub mod logger;
pub mod metadata;
pub mod network;
pub mod run_plan;
pub mod scan_run;
pub mod scanner;
pub mod templates;
pub mod text;
