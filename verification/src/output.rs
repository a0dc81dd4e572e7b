//! The artifact generators for the fixed, mostly-static files of a generated
//! project: build manifest, container and compose descriptors, environment
//! file, ignore files, database connection module, bootstrap and handlers.

pub mod cargo_toml_content;
pub mod compose_yaml_content;
pub mod database_connection_content;
pub mod dockerfile_content;
pub mod env_content;
pub mod http_content;
pub mod ignore_content;
pub mod main_content;
