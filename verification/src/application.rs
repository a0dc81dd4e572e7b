//! The application layer: the project materializer.

pub mod project_service;
