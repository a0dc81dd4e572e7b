//! A scaffolding generator for layered backend services.
//!
//! Given a declarative description of a service (its data models, endpoints,
//! middlewares, target web framework and storage dialect), the library
//! deterministically derives every name and artifact text of a complete
//! generated source tree. All artifact generators are pure functions whose
//! output is pinned down exactly by their contracts.

pub mod adapters;
pub mod application;
pub mod casing;
pub mod config;
pub mod domain;
pub mod endpoints;
pub mod laws;
pub mod middleware;
pub mod models;
pub mod naming;
pub mod output;
pub mod template;
pub mod template_create;
pub mod text;
