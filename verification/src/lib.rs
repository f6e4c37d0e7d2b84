//! Verified core of a deployment tool for file-based applications: a template
//! tree and user-supplied values are staged, merged, rendered and handed to a
//! container orchestrator, while a persisted store tracks every application.

pub mod settings;
pub mod values;
pub mod load_values;
pub mod yaml;
pub mod text;
pub mod error;
pub mod yaml_string_parser;
pub mod storage;
pub mod template;
pub mod docker_compose;
pub mod app_yaml;
pub mod copy_file_utils;
pub mod walk;
pub mod commands;
pub mod file_utils;
