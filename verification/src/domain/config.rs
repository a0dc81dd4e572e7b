//! The schema model: the in-memory description of one service to scaffold.

use vstd::prelude::*;

verus! {

/// The two web frameworks a generated service can target.
#[derive(Clone, Copy, Debug, PartialEq, Eq, Structural)]
pub enum Framework {
    Axum,
    ActixWeb,
}

/// One field of a data model: a name and a type tag copied verbatim into
/// generated field declarations.
#[derive(Clone, Debug)]
pub struct Field {
    pub name: String,
    pub field_type: String,
}

/// The mathematical value of a `Field`.
pub ghost struct FieldV {
    pub name: Seq<char>,
    pub field_type: Seq<char>,
}

impl DeepView for Field {
    type V = FieldV;

    open spec fn deep_view(&self) -> FieldV {
        FieldV { name: self.name@, field_type: self.field_type@ }
    }
}

/// One HTTP endpoint of a model: method, path, and the optional parameter
/// groups and middleware references.
#[derive(Clone, Debug)]
pub struct Endpoint {
    pub method: String,
    pub path: String,
    pub middlewares: Option<Vec<String>>,
    pub path_params: Option<Vec<Field>>,
    pub body_params: Option<Vec<Field>>,
    pub query_params: Option<Vec<Field>>,
}

/// The mathematical value of an `Endpoint`.
pub ghost struct EndpointV {
    pub method: Seq<char>,
    pub path: Seq<char>,
    pub middlewares: Option<Seq<Seq<char>>>,
    pub path_params: Option<Seq<FieldV>>,
    pub body_params: Option<Seq<FieldV>>,
    pub query_params: Option<Seq<FieldV>>,
}

impl DeepView for Endpoint {
    type V = EndpointV;

    open spec fn deep_view(&self) -> EndpointV {
        EndpointV {
            method: self.method@,
            path: self.path@,
            middlewares: self.middlewares.deep_view(),
            path_params: self.path_params.deep_view(),
            body_params: self.body_params.deep_view(),
            query_params: self.query_params.deep_view(),
        }
    }
}

/// One data model: a type name, a backing table name, fields, and optional
/// endpoints.
#[derive(Clone, Debug)]
pub struct Model {
    pub name: String,
    pub table_name: String,
    pub fields: Vec<Field>,
    pub endpoints: Option<Vec<Endpoint>>,
}

/// The mathematical value of a `Model`.
pub ghost struct ModelV {
    pub name: Seq<char>,
    pub table_name: Seq<char>,
    pub fields: Seq<FieldV>,
    pub endpoints: Option<Seq<EndpointV>>,
}

impl DeepView for Model {
    type V = ModelV;

    open spec fn deep_view(&self) -> ModelV {
        ModelV {
            name: self.name@,
            table_name: self.table_name@,
            fields: self.fields.deep_view(),
            endpoints: self.endpoints.deep_view(),
        }
    }
}

/// One cross-cutting middleware block, associated with a model.
#[derive(Clone, Debug)]
pub struct Middleware {
    pub model: String,
}

/// The mathematical value of a `Middleware`.
pub ghost struct MiddlewareV {
    pub model: Seq<char>,
}

impl DeepView for Middleware {
    type V = MiddlewareV;

    open spec fn deep_view(&self) -> MiddlewareV {
        MiddlewareV { model: self.model@ }
    }
}

/// The root description of one service to scaffold.
#[derive(Clone, Debug)]
pub struct Config {
    pub project_name: String,
    pub database_url: String,
    pub database_type: String,
    pub models: Vec<Model>,
    pub middlewares: Option<Vec<Middleware>>,
    pub framework: Framework,
}

/// The mathematical value of a `Config`.
pub ghost struct ConfigV {
    pub project_name: Seq<char>,
    pub database_url: Seq<char>,
    pub database_type: Seq<char>,
    pub models: Seq<ModelV>,
    pub middlewares: Option<Seq<MiddlewareV>>,
    pub framework: Framework,
}

impl DeepView for Config {
    type V = ConfigV;

    open spec fn deep_view(&self) -> ConfigV {
        ConfigV {
            project_name: self.project_name@,
            database_url: self.database_url@,
            database_type: self.database_type@,
            models: self.models.deep_view(),
            middlewares: self.middlewares.deep_view(),
            framework: self.framework,
        }
    }
}

} // verus!
