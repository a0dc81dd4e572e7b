//! The flat configuration shape of the route-file generators: no framework
//! choice, models and middlewares only.
//!
//! Reading and parsing the configuration document happens outside the
//! library; it hands over a `Config` value.

use vstd::prelude::*;
use crate::middleware::Middleware;
use crate::middleware::MiddlewareV;
use crate::models::Model;
use crate::models::ModelV;

verus! {

/// The root description of one service, in the flat shape.
#[derive(Clone, Debug)]
pub struct Config {
    pub project_name: String,
    pub database_url: String,
    pub database_type: String,
    pub models: Vec<Model>,
    pub middlewares: Option<Vec<Middleware>>,
}

/// The mathematical value of a flat `Config`.
pub ghost struct ConfigV {
    pub project_name: Seq<char>,
    pub database_url: Seq<char>,
    pub database_type: Seq<char>,
    pub models: Seq<ModelV>,
    pub middlewares: Option<Seq<MiddlewareV>>,
}

impl DeepView for Config {
    type V = ConfigV;

    open spec fn deep_view(&self) -> ConfigV {
        ConfigV {
            project_name: self.project_name@,
            database_url: self.database_url@,
            database_type: self.database_type@,
            models: self.models.deep_view(),
            middlewares: self.middlewares.deep_view(),
        }
    }
}

} // verus!
