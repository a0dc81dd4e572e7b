//! The domain layer: the schema model, the artifact templates, and the ports
//! the materializer writes through.

pub mod config;
pub mod ports;
pub mod template;
pub mod validate;
