//! The per-model artifact templates of the layered project: domain model,
//! repository interface and implementation, service layer, error module,
//! middleware, route table and HTTP server file.

use vstd::prelude::*;
use vstd::string::StringExecFns;
use crate::domain::config::Config;
use crate::domain::config::ConfigV;
use crate::domain::config::EndpointV;
use crate::domain::config::FieldV;
use crate::domain::config::Framework;
use crate::domain::config::Middleware;
use crate::domain::config::MiddlewareV;
use crate::domain::config::Model;
use crate::domain::config::ModelV;
use crate::domain::validate::endpoints_of;
use crate::domain::validate::refs_of;
use crate::naming::ascii_lower;
use crate::naming::handler_name;
use crate::naming::handler_name_spec;
use crate::naming::lower_spec;
use crate::naming::middleware_base;
use crate::naming::middleware_base_spec;
use crate::naming::middleware_fn_name;
use crate::naming::middleware_fn_spec;
use crate::naming::pool_type_for;
use crate::naming::pool_type_spec;
use crate::naming::service_field;
use crate::naming::service_field_spec;
use crate::naming::supported_dialect_spec;
use crate::output::http_content::generate_handler;
use crate::output::http_content::generate_handler_spec;
use crate::text::join_spec;
use crate::text::join_strs;
use crate::text::str_eq;
use crate::text::str_owned;

verus! {

/// The artifact templates, parameterized once by the whole configuration.
pub struct Template {
    pub config: Config,
}

/// One generated model field line.
pub open spec fn model_field_line_spec(f: FieldV) -> Seq<char> {
    "    pub "@ + f.name + ": "@ + f.field_type + ","@
}

/// The text of the generated domain-model file of one model: a serializable,
/// table-mapped struct with one field per declared field.
pub open spec fn model_content_spec(m: ModelV) -> Seq<char> {
    "use serde::{Deserialize, Serialize};\nuse prkorm::Table;\nuse sqlx::FromRow;\n\n#[derive(Debug, Serialize, Deserialize, Table, Default, FromRow)]\n#[table_name(\""@
        + m.table_name + "\")]\n#[primary_key(\"id\")]\npub struct "@ + m.name + " {\n"@
        + join_spec(m.fields.map_values(|f: FieldV| model_field_line_spec(f)), "\n"@) + "\n}"@
}

/// One `.layer(...)` wrapper applied to an axum route for one middleware
/// reference, in declared order.
pub open spec fn axum_layer_spec(name: Seq<char>) -> Seq<char> {
    let f = middleware_fn_spec(middleware_base_spec(name));
    ".layer(axum::middleware::from_fn_with_state(state.clone(), super::"@ + f + "::"@ + f + "))"@
}

/// The layer wrappers of an endpoint's middleware references.
pub open spec fn axum_layers_spec(names: Seq<Seq<char>>) -> Seq<char>
    decreases names.len(),
{
    if names.len() == 0 {
        Seq::empty()
    } else {
        axum_layers_spec(names.drop_last()) + axum_layer_spec(names.last())
    }
}

/// One axum route-table entry.
pub open spec fn axum_route_line_spec(e: EndpointV) -> Seq<char> {
    "    .route(\""@ + e.path + "\", "@ + lower_spec(e.method) + "("@ + handler_name_spec(
        e.method,
        e.path,
    ) + ")"@ + axum_layers_spec(refs_of(e)) + ")\n"@
}

/// The axum route-table entries of a sequence of endpoints.
pub open spec fn axum_endpoint_routes_spec(es: Seq<EndpointV>) -> Seq<char>
    decreases es.len(),
{
    if es.len() == 0 {
        Seq::empty()
    } else {
        axum_endpoint_routes_spec(es.drop_last()) + axum_route_line_spec(es.last())
    }
}

/// The whole axum route table, models and endpoints in declaration order.
pub open spec fn axum_router_spec(ms: Seq<ModelV>) -> Seq<char>
    decreases ms.len(),
{
    if ms.len() == 0 {
        Seq::empty()
    } else {
        axum_router_spec(ms.drop_last()) + axum_endpoint_routes_spec(endpoints_of(ms.last()))
    }
}

/// The actix route constructor for an HTTP method: the four standard verbs
/// map to their helpers, everything else to the generic route.
pub open spec fn actix_method_spec(method: Seq<char>) -> Seq<char> {
    let l = lower_spec(method);
    if l == "get"@ {
        "web::get"@
    } else if l == "post"@ {
        "web::post"@
    } else if l == "put"@ {
        "web::put"@
    } else if l == "delete"@ {
        "web::delete"@
    } else {
        "web::route"@
    }
}

/// One actix route-table entry.
pub open spec fn actix_route_line_spec(e: EndpointV) -> Seq<char> {
    "    .route(\""@ + e.path + "\", "@ + actix_method_spec(e.method) + "().to("@
        + handler_name_spec(e.method, e.path) + "))\n"@
}

/// The actix route-table entries of a sequence of endpoints.
pub open spec fn actix_endpoint_routes_spec(es: Seq<EndpointV>) -> Seq<char>
    decreases es.len(),
{
    if es.len() == 0 {
        Seq::empty()
    } else {
        actix_endpoint_routes_spec(es.drop_last()) + actix_route_line_spec(es.last())
    }
}

/// The whole actix route table, models and endpoints in declaration order.
pub open spec fn actix_router_spec(ms: Seq<ModelV>) -> Seq<char>
    decreases ms.len(),
{
    if ms.len() == 0 {
        Seq::empty()
    } else {
        actix_router_spec(ms.drop_last()) + actix_endpoint_routes_spec(endpoints_of(ms.last()))
    }
}

/// The text of the generated middleware file of one middleware block, for
/// the axum framework: a pass-through layer that looks up the model's
/// service from the shared state and traces the request.
pub open spec fn axum_middleware_content_spec(mw: MiddlewareV) -> Seq<char> {
    "use crate::adapters::http::http::AppState;\nuse crate::domain::error::AppError;\nuse axum::{extract::{State, Request}, middleware::Next, response::Response};\n\npub async fn "@
        + lower_spec(mw.model)
        + "_middleware(\nState(state): State<AppState>,\nrequest: Request,\nnext: Next,\n) -> Result<Response, AppError> {\nlet service = state."@
        + lower_spec(mw.model) + "_service;\ntracing::info!(\"Processing request for "@ + mw.model
        + " model\");\nlet response = next.run(request).await;\nOk(response)\n}"@
}

/// The text of the generated middleware file of one middleware block, for
/// the actix framework: an intercepting call in the service chain.
pub open spec fn actix_middleware_content_spec(mw: MiddlewareV) -> Seq<char> {
    "use crate::adapters::http::http::AppState;\n                use actix_web::{\n                        body::BoxBody,\n                        dev::{ ServiceRequest, ServiceResponse},\n                        middleware::Next,\n                        web, Error,\n                    };\n                 pub async fn "@
        + lower_spec(mw.model)
        + "_middleware(\nreq: ServiceRequest,\nnext: Next<BoxBody>,\n) -> Result<ServiceResponse, Error> {\nlet state = req.app_data::<web::Data<AppState>>().unwrap();\nlet service = state."@
        + lower_spec(mw.model) + "_service.clone();\ntracing::info!(\"Processing request for "@
        + mw.model + " model\");\nlet res = next.call(req).await?;\nOk(res)\n}"@
}

/// The middleware artifact of one middleware block, per framework.
pub open spec fn middleware_content_spec(mw: MiddlewareV, f: Framework) -> Seq<char> {
    match f {
        Framework::Axum => axum_middleware_content_spec(mw),
        Framework::ActixWeb => actix_middleware_content_spec(mw),
    }
}

/// The text of the generated repository interface of one model: exactly the
/// three baseline operations, fetch-all, fetch-by-identifier and create.
pub open spec fn repository_trait_spec(m: ModelV) -> Seq<char> {
    "use std::future::Future;\nuse crate::domain::models::"@ + lower_spec(m.name) + "::"@ + m.name
        + ";\nuse crate::domain::error::AppError;\n\npub trait "@ + m.name
        + "Repository: Send + Sync + 'static {\nfn find_all(&self) -> impl Future<Output = Result<Vec<"@
        + m.name
        + ">, AppError>> + Send;\nfn find_by_id(&self, id: i32) -> impl Future<Output = Result<Option<"@
        + m.name + ">, AppError>> + Send;\nfn create(&self, body: "@ + m.name
        + ") -> impl Future<Output = Result<"@ + m.name + ", AppError>> + Send;\n}"@
}

/// The text of the generated repository implementation of one model: bound
/// to the dialect's pool type, with fetch-all and fetch-by-identifier routed
/// through the query builder and create left as an explicit deferred-work
/// marker.
pub open spec fn repository_impl_spec(m: ModelV, d: Seq<char>) -> Seq<char> {
    "use crate::domain::models::"@ + lower_spec(m.name) + "::"@ + m.name
        + ";\nuse crate::domain::ports::"@ + lower_spec(m.name) + "_repository::"@ + m.name
        + "Repository;\nuse crate::domain::error::AppError;\nuse sqlx::"@ + d
        + ";\n\n#[derive(Clone)]\npub struct Sqlx"@ + m.name + "Repository {\npool: "@
        + pool_type_spec(d) + ",\n}\n\nimpl Sqlx"@ + m.name + "Repository {\npub fn new(pool: "@
        + pool_type_spec(d) + ") -> Self {\nSelf { pool }\n}\n}\n\nimpl "@ + m.name
        + "Repository for Sqlx"@ + m.name
        + "Repository {\nasync fn find_all(&self) -> Result<Vec<"@ + m.name
        + ">, AppError> {\nlet query = "@ + m.name
        + "::select().build();\nsqlx::query_as(&query).fetch_all(&self.pool).await.map_err(AppError::from) \n}\nasync fn find_by_id(&self, id: i32) -> Result<Option<"@
        + m.name + ">, AppError> {\nlet query = "@ + m.name
        + "::select().where_id(id).build();\nsqlx::query_as(&query).fetch_optional(&self.pool).await.map_err(AppError::from) \n}\nasync fn create(&self, body: "@
        + m.name + ") -> Result<"@ + m.name
        + ", AppError> {\ntodo!()\n}\n// Implement create, update, delete similarly\n}"@
}

/// The text of the generated service layer of one model: a thin delegating
/// layer over the repository contract.
pub open spec fn service_spec(m: ModelV) -> Seq<char> {
    "use crate::domain::models::"@ + lower_spec(m.name) + "::"@ + m.name
        + ";\nuse crate::domain::ports::"@ + lower_spec(m.name) + "_repository::"@ + m.name
        + "Repository;\nuse crate::domain::error::AppError;\n\n#[derive(Clone)]\npub struct "@
        + m.name + "Service<R: "@ + m.name + "Repository> {\nrepo: R,\n}\n\nimpl<R: "@ + m.name
        + "Repository> "@ + m.name
        + "Service<R> {\npub fn new(repo: R) -> Self {\nSelf { repo }\n}\n\npub async fn get_all(&self) -> Result<Vec<"@
        + m.name
        + ">, AppError> {\nself.repo.find_all().await\n}\npub async fn get_by_id(&self, id: i32) -> Result<Option<"@
        + m.name
        + ">, AppError> {\nself.repo.find_by_id(id).await\n}\npub async fn create(&self, body: "@
        + m.name + ") -> Result<"@ + m.name
        + ", AppError> {\nself.repo.create(body).await\n}\n// Add other methods as needed\n}"@
}

/// The text of the generated error module for the axum framework.
pub open spec fn axum_error_content_spec() -> Seq<char> {
    "use axum::{response::IntoResponse, http::StatusCode};\nuse thiserror::Error;\n\n#[derive(Error, Debug)]\npub enum AppError {\n#[error(\"Database error: {0}\")]\nDatabase(#[from] sqlx::Error),\n#[error(\"Not found: {0}\")]\nNotFound(String),\n#[error(\"Unauthorized: {0}\")]\nUnauthorized(String),\n}\n\nimpl IntoResponse for AppError {\nfn into_response(self) -> axum::response::Response {\nmatch self {\nAppError::Database(_) => (StatusCode::INTERNAL_SERVER_ERROR, self.to_string()).into_response(),\nAppError::NotFound(msg) => (StatusCode::NOT_FOUND, msg).into_response(),\nAppError::Unauthorized(_) => (StatusCode::UNAUTHORIZED, self.to_string()).into_response(),\n}\n}\n}"@
}

/// The text of the generated error module for the actix framework.
pub open spec fn actix_error_content_spec() -> Seq<char> {
    "use actix_web::{error::Error as ActixError, HttpResponse, http::StatusCode};\nuse thiserror::Error;\n\n#[derive(Error, Debug)]\npub enum AppError {\n#[error(\"Database error: {0}\")]\nDatabase(#[from] sqlx::Error),\n#[error(\"Not found: {0}\")]\nNotFound(String),\n#[error(\"Unauthorized: {0}\")]\nUnauthorized(String),\n}\n\nimpl actix_web::error::ResponseError for AppError {\nfn error_response(&self) -> HttpResponse {\nmatch self {\nAppError::Database(_) => HttpResponse::InternalServerError().body(self.to_string()),\nAppError::NotFound(msg) => HttpResponse::NotFound().body(msg.clone()),\nAppError::Unauthorized(_) => HttpResponse::Unauthorized().body(self.to_string()),\n}\n}\n}"@
}

/// The error-module artifact, per framework.
pub open spec fn error_content_spec(f: Framework) -> Seq<char> {
    match f {
        Framework::Axum => axum_error_content_spec(),
        Framework::ActixWeb => actix_error_content_spec(),
    }
}

/// The route table of a configuration, per its framework.
pub open spec fn router_spec(c: ConfigV) -> Seq<char> {
    match c.framework {
        Framework::Axum => axum_router_spec(c.models),
        Framework::ActixWeb => actix_router_spec(c.models),
    }
}

/// One field line of the shared application state: the model's service
/// under its derived field name.
pub open spec fn app_state_field_line_spec(m: ModelV) -> Seq<char> {
    "    pub "@ + service_field_spec(m.name) + ": Arc<services::"@ + m.name + "Service<Sqlx"@
        + m.name + "Repository>>,\n"@
}

/// The field lines of the shared application state, in declaration order.
pub open spec fn app_state_fields_spec(ms: Seq<ModelV>) -> Seq<char>
    decreases ms.len(),
{
    if ms.len() == 0 {
        Seq::empty()
    } else {
        app_state_fields_spec(ms.drop_last()) + app_state_field_line_spec(ms.last())
    }
}

/// The shared application-state struct.
pub open spec fn app_state_spec(ms: Seq<ModelV>) -> Seq<char> {
    "#[derive(Clone)]\npub struct AppState {\n"@ + app_state_fields_spec(ms) + "\n}"@
}

/// One constructor parameter of the generated HTTP server.
pub open spec fn new_param_spec(m: ModelV) -> Seq<char> {
    service_field_spec(m.name) + ": services::"@ + m.name + "Service<Sqlx"@ + m.name
        + "Repository>"@
}

/// The constructor parameter list of the generated HTTP server.
pub open spec fn new_params_spec(ms: Seq<ModelV>) -> Seq<char> {
    join_spec(ms.map_values(|m: ModelV| new_param_spec(m)), ", "@)
}

/// One state-struct initializer line of the axum server constructor.
pub open spec fn axum_state_field_line_spec(m: ModelV) -> Seq<char> {
    "        "@ + service_field_spec(m.name) + ": Arc::new("@ + service_field_spec(m.name) + "),"@
}

/// The state-struct initializer lines of the axum server constructor.
pub open spec fn axum_state_fields_spec(ms: Seq<ModelV>) -> Seq<char> {
    join_spec(ms.map_values(|m: ModelV| axum_state_field_line_spec(m)), "\n"@)
}

/// One field initializer of the actix server constructor.
pub open spec fn actix_state_field_line_spec(m: ModelV) -> Seq<char> {
    "        "@ + service_field_spec(m.name) + ": "@ + service_field_spec(m.name) + ","@
}

/// The field initializers of the actix server constructor.
pub open spec fn actix_state_fields_spec(ms: Seq<ModelV>) -> Seq<char> {
    join_spec(ms.map_values(|m: ModelV| actix_state_field_line_spec(m)), "\n"@)
}

/// One shared-state initializer line of the actix run method.
pub open spec fn actix_self_state_field_line_spec(m: ModelV) -> Seq<char> {
    "        "@ + service_field_spec(m.name) + ": Arc::new(self."@ + service_field_spec(m.name)
        + "),"@
}

/// The shared-state initializer lines of the actix run method.
pub open spec fn actix_self_state_fields_spec(ms: Seq<ModelV>) -> Seq<char> {
    join_spec(ms.map_values(|m: ModelV| actix_self_state_field_line_spec(m)), "\n"@)
}

/// The handler artifacts of one model's endpoints, per framework.
pub open spec fn model_handlers_spec(m: ModelV, f: Framework) -> Seq<Seq<char>> {
    endpoints_of(m).map_values(|e: EndpointV| generate_handler_spec(m, e, f))
}

/// The handler artifacts of all models, models and endpoints in declaration
/// order.
pub open spec fn handlers_seq_spec(ms: Seq<ModelV>, f: Framework) -> Seq<Seq<char>>
    decreases ms.len(),
{
    if ms.len() == 0 {
        Seq::empty()
    } else {
        handlers_seq_spec(ms.drop_last(), f) + model_handlers_spec(ms.last(), f)
    }
}

/// All handler artifacts joined by blank lines.
pub open spec fn handlers_spec(ms: Seq<ModelV>, f: Framework) -> Seq<char> {
    join_spec(handlers_seq_spec(ms, f), "\n\n"@)
}

/// The text of the generated axum HTTP server file: imports, server config,
/// the shared state, every handler, the server with its tracing span and
/// health endpoint, and the route table.
pub open spec fn axum_http_content_spec(ms: Seq<ModelV>) -> Seq<char> {
    "\n    use std::{net::SocketAddr, sync::Arc};\n    use anyhow::Context;\n    use serde::*;\n    use axum::{routing::{get, post}, Router, http::StatusCode, extract::*};\n    use tokio::net;\n    use tower_http::{cors::CorsLayer, trace::TraceLayer};\n    use crate::infrastructure::*;\n    use crate::domain::*;\n    use crate::application::services;\n    use crate::domain::error::AppError;\n    \n    #[derive(Debug, Clone, PartialEq, Eq)]\n    pub struct HttpServerConfig<'a> {\n        pub port: &'a str,\n    }\n    \n    "@
        + app_state_spec(ms) + "\n    \n    "@ + handlers_spec(ms, Framework::Axum)
        + "\n    \n    pub struct HttpServer {\n        router: Router,\n        listener: net::TcpListener,\n    }\n    \n    impl HttpServer {\n        pub async fn new(\n            "@
        + new_params_spec(ms)
        + ",\n            config: HttpServerConfig<'_>,\n        ) -> anyhow::Result<Self> {\n            let trace_layer = TraceLayer::new_for_http().make_span_with(\n                |request: &axum::extract::Request<_>| {\n                    let uri = request.uri().to_string();\n                    tracing::info_span!(\"http_request\", method = ?request.method(), uri)\n                }\n            );\n    \n            let state = AppState {\n    "@
        + axum_state_fields_spec(ms)
        + "\n            };\n    \n            let router = Router::new()\n                .route(\"/health\", get(health_route))\n                .nest(\"/api\", api_routes(state.clone()))\n                .layer(CorsLayer::permissive())\n                .layer(trace_layer)\n                .with_state(state);\n    \n            let addr = SocketAddr::from((\n                [0, 0, 0, 0, 0, 0, 0, 0],\n                config.port.parse::<u16>().unwrap_or(3000),\n            ));\n    \n            let listener = net::TcpListener::bind(&addr)\n                .await\n                .with_context(|| format!(\"failed to listen on port {}\", config.port))?;\n    \n            Ok(Self { router, listener })\n        }\n    \n        pub async fn run(self) -> anyhow::Result<()> {\n            tracing::debug!(\"listening on {}\", self.listener.local_addr().unwrap());\n            axum::serve(self.listener, self.router)\n                .await\n                .context(\"received error from running server\")?;\n            Ok(())\n        }\n    }\n    \n    fn api_routes(state: AppState) -> Router<AppState> {\n        Router::new()\n    "@
        + axum_router_spec(ms)
        + "\n    }\n    \n    async fn health_route() -> (StatusCode, &'static str) {\n        (StatusCode::OK, \"OK\")\n    }\n            "@
}

/// The text of the generated actix HTTP server file: imports, server config,
/// the shared state, every handler, and a multi-worker server factory with a
/// health endpoint and the route table.
pub open spec fn actix_http_content_spec(ms: Seq<ModelV>) -> Seq<char> {
    "\n    use actix_web::{web, App, HttpResponse};\n    use std::sync::Arc;\n    use anyhow::Context;\n    use crate::infrastructure::*;\n    use crate::domain::*;\n    use crate::application::services;\n    use crate::domain::error::AppError;\n    use serde::*;\n    \n    #[derive(Debug, Clone, PartialEq, Eq)]\n    pub struct HttpServerConfig {\n        pub port: String,\n    }\n    \n    "@
        + app_state_spec(ms) + "\n    \n    "@ + handlers_spec(ms, Framework::ActixWeb)
        + "\n    \n    pub struct HttpServer {\n    "@ + new_params_spec(ms)
        + ",\n    config: HttpServerConfig\n    }\n    \n    impl HttpServer {\n\n        pub async fn new(\n        "@
        + new_params_spec(ms)
        + ",\n        config: HttpServerConfig,\n        ) -> anyhow::Result<Self> {\n            Ok(\n            Self {config, "@
        + actix_state_fields_spec(ms)
        + "} \n            )\n        }\n\n        pub async fn run(self) -> anyhow::Result<()> {\n            let state = web::Data::new(AppState {\n    "@
        + actix_self_state_fields_spec(ms)
        + "\n            });\n    \n            actix_web::HttpServer::new(move || {\n                App::new()\n                    .app_data(state.clone())\n                    .route(\"/health\", web::get().to(health_route))\n                    .service(\n                        web::scope(\"/api\")\n    "@
        + actix_router_spec(ms)
        + "\n                    )\n            })\n            .bind(format!(\"0.0.0.0:{}\", self.config.port.parse::<u16>().unwrap_or(3000)))?\n            .run()\n            .await\n            .context(\"received error from running server\")?;\n            Ok(())\n        }\n    }\n    \n    async fn health_route() -> impl actix_web::Responder {\n        HttpResponse::Ok().body(\"OK\")\n    }\n            "@
}

/// The HTTP server artifact of a configuration, per its framework.
pub open spec fn http_content_spec(c: ConfigV) -> Seq<char> {
    match c.framework {
        Framework::Axum => axum_http_content_spec(c.models),
        Framework::ActixWeb => actix_http_content_spec(c.models),
    }
}

/// Renders the shared application-state struct for a model list.
#[verifier::loop_isolation(false)]
fn app_state_block(models: &Vec<Model>) -> (r: String)
    ensures
        r@ == app_state_spec(models.deep_view()),
{
    let ghost ms = models.deep_view();
    let mut fields = String::new();
    let mut i: usize = 0;
    while i < models.len()
        invariant
            i <= models@.len(),
            fields@ == app_state_fields_spec(ms.take(i as int)),
        decreases models@.len() - i,
    {
        proof {
            assert(ms[i as int] == models@[i as int].deep_view());
        }
        let sf = service_field(models[i].name.as_str());
        fields.append("    pub ");
        fields.append(sf.as_str());
        fields.append(": Arc<services::");
        fields.append(models[i].name.as_str());
        fields.append("Service<Sqlx");
        fields.append(models[i].name.as_str());
        fields.append("Repository>>,\n");
        proof {
            assert(ms.take(i + 1).drop_last() =~= ms.take(i as int));
            assert(ms.take(i + 1).last() == ms[i as int]);
            assert(fields@ =~= app_state_fields_spec(ms.take(i + 1)));
        }
        i = i + 1;
    }
    proof {
        assert(ms.take(models@.len() as int) =~= ms);
    }
    let mut r = String::new();
    r.append("#[derive(Clone)]\npub struct AppState {\n");
    r.append(fields.as_str());
    r.append("\n}");
    proof {
        assert(r@ =~= app_state_spec(ms));
    }
    r
}

/// Renders the constructor parameter list of the generated HTTP server.
#[verifier::loop_isolation(false)]
fn new_params_block(models: &Vec<Model>) -> (r: String)
    ensures
        r@ == new_params_spec(models.deep_view()),
{
    let ghost ms = models.deep_view();
    let mut parts: Vec<String> = Vec::new();
    let mut i: usize = 0;
    while i < models.len()
        invariant
            i <= models@.len(),
            parts.deep_view() =~= ms.take(i as int).map_values(|m: ModelV| new_param_spec(m)),
        decreases models@.len() - i,
    {
        proof {
            assert(ms[i as int] == models@[i as int].deep_view());
        }
        let mut p = service_field(models[i].name.as_str());
        p.append(": services::");
        p.append(models[i].name.as_str());
        p.append("Service<Sqlx");
        p.append(models[i].name.as_str());
        p.append("Repository>");
        proof {
            assert(p@ =~= new_param_spec(ms[i as int]));
        }
        let ghost before = parts.deep_view();
        parts.push(p);
        proof {
            assert(parts.deep_view() =~= before.push(new_param_spec(ms[i as int])));
            assert(ms.take(i + 1).map_values(|m: ModelV| new_param_spec(m)) =~= before.push(
                new_param_spec(ms[i as int]),
            ));
        }
        i = i + 1;
    }
    proof {
        assert(ms.take(models@.len() as int) =~= ms);
    }
    join_strs(&parts, ", ")
}

/// Which of the three state-initializer line shapes to render.
#[derive(Clone, Copy)]
enum StateLineKind {
    AxumArc,
    ActixPlain,
    ActixSelfArc,
}

/// The state-initializer line of one model, per shape.
spec fn state_line_spec(m: ModelV, kind: StateLineKind) -> Seq<char> {
    match kind {
        StateLineKind::AxumArc => axum_state_field_line_spec(m),
        StateLineKind::ActixPlain => actix_state_field_line_spec(m),
        StateLineKind::ActixSelfArc => actix_self_state_field_line_spec(m),
    }
}

/// Renders the newline-joined state-initializer lines of a model list, per
/// shape.
#[verifier::loop_isolation(false)]
fn state_fields_block(models: &Vec<Model>, kind: StateLineKind) -> (r: String)
    ensures
        r@ == join_spec(
            models.deep_view().map_values(|m: ModelV| state_line_spec(m, kind)),
            "\n"@,
        ),
{
    let ghost ms = models.deep_view();
    let mut parts: Vec<String> = Vec::new();
    let mut i: usize = 0;
    while i < models.len()
        invariant
            i <= models@.len(),
            parts.deep_view() =~= ms.take(i as int).map_values(
                |m: ModelV| state_line_spec(m, kind),
            ),
        decreases models@.len() - i,
    {
        proof {
            assert(ms[i as int] == models@[i as int].deep_view());
        }
        let sf = service_field(models[i].name.as_str());
        let mut p = String::new();
        p.append("        ");
        p.append(sf.as_str());
        match kind {
            StateLineKind::AxumArc => {
                p.append(": Arc::new(");
                p.append(sf.as_str());
                p.append("),");
            },
            StateLineKind::ActixPlain => {
                p.append(": ");
                p.append(sf.as_str());
                p.append(",");
            },
            StateLineKind::ActixSelfArc => {
                p.append(": Arc::new(self.");
                p.append(sf.as_str());
                p.append("),");
            },
        }
        proof {
            assert(p@ =~= state_line_spec(ms[i as int], kind));
        }
        let ghost before = parts.deep_view();
        parts.push(p);
        proof {
            assert(parts.deep_view() =~= before.push(state_line_spec(ms[i as int], kind)));
            assert(ms.take(i + 1).map_values(|m: ModelV| state_line_spec(m, kind)) =~= before.push(
                state_line_spec(ms[i as int], kind),
            ));
        }
        i = i + 1;
    }
    proof {
        assert(ms.take(models@.len() as int) =~= ms);
    }
    join_strs(&parts, "\n")
}

/// Renders every handler of every endpoint, joined by blank lines.
#[verifier::loop_isolation(false)]
fn handlers_block(models: &Vec<Model>, framework: Framework) -> (r: String)
    ensures
        r@ == handlers_spec(models.deep_view(), framework),
{
    let ghost ms = models.deep_view();
    let mut hs: Vec<String> = Vec::new();
    let mut i: usize = 0;
    while i < models.len()
        invariant
            i <= models@.len(),
            hs.deep_view() =~= handlers_seq_spec(ms.take(i as int), framework),
        decreases models@.len() - i,
    {
        proof {
            assert(ms[i as int] == models@[i as int].deep_view());
            assert(ms.take(i + 1).drop_last() =~= ms.take(i as int));
            assert(ms.take(i + 1).last() == ms[i as int]);
        }
        match &models[i].endpoints {
            None => {
                proof {
                    assert(model_handlers_spec(ms[i as int], framework) =~= Seq::<Seq<char>>::empty());
                    assert(hs.deep_view() =~= handlers_seq_spec(ms.take(i + 1), framework));
                }
            },
            Some(endpoints) => {
                let ghost es = endpoints.deep_view();
                let mut j: usize = 0;
                while j < endpoints.len()
                    invariant
                        i < models@.len(),
                        es == endpoints_of(ms[i as int]),
                        es.len() == endpoints@.len(),
                        j <= endpoints@.len(),
                        hs.deep_view() =~= handlers_seq_spec(ms.take(i as int), framework) + es.take(
                            j as int,
                        ).map_values(|e: EndpointV| generate_handler_spec(ms[i as int], e, framework)),
                    decreases endpoints@.len() - j,
                {
                    proof {
                        assert(es[j as int] == endpoints@[j as int].deep_view());
                    }
                    let h = generate_handler(&models[i], &endpoints[j], framework);
                    let ghost before = hs.deep_view();
                    hs.push(h);
                    proof {
                        assert(hs.deep_view() =~= before.push(
                            generate_handler_spec(ms[i as int], es[j as int], framework),
                        ));
                        assert(es.take(j + 1).map_values(
                            |e: EndpointV| generate_handler_spec(ms[i as int], e, framework),
                        ) =~= es.take(j as int).map_values(
                            |e: EndpointV| generate_handler_spec(ms[i as int], e, framework),
                        ).push(generate_handler_spec(ms[i as int], es[j as int], framework)));
                    }
                    j = j + 1;
                }
                proof {
                    assert(es.take(endpoints@.len() as int) =~= es);
                    assert(hs.deep_view() =~= handlers_seq_spec(ms.take(i + 1), framework));
                }
            },
        }
        i = i + 1;
    }
    proof {
        assert(ms.take(models@.len() as int) =~= ms);
    }
    join_strs(&hs, "\n\n")
}

/// Renders one axum route-table entry.
fn axum_route_line(endpoint: &crate::domain::config::Endpoint) -> (r: String)
    ensures
        r@ == axum_route_line_spec(endpoint.deep_view()),
{
    let method = ascii_lower(endpoint.method.as_str());
    let hname = handler_name(endpoint.method.as_str(), endpoint.path.as_str());
    let layers = axum_layers_for(&endpoint.middlewares);
    let mut r = String::new();
    r.append("    .route(\"");
    r.append(endpoint.path.as_str());
    r.append("\", ");
    r.append(method.as_str());
    r.append("(");
    r.append(hname.as_str());
    r.append(")");
    r.append(layers.as_str());
    r.append(")\n");
    proof {
        assert(r@ =~= axum_route_line_spec(endpoint.deep_view()));
    }
    r
}

/// Renders one actix route-table entry.
fn actix_route_line(endpoint: &crate::domain::config::Endpoint) -> (r: String)
    ensures
        r@ == actix_route_line_spec(endpoint.deep_view()),
{
    let lower = ascii_lower(endpoint.method.as_str());
    let method = if str_eq(lower.as_str(), "get") {
        str_owned("web::get")
    } else if str_eq(lower.as_str(), "post") {
        str_owned("web::post")
    } else if str_eq(lower.as_str(), "put") {
        str_owned("web::put")
    } else if str_eq(lower.as_str(), "delete") {
        str_owned("web::delete")
    } else {
        str_owned("web::route")
    };
    proof {
        assert(method@ == actix_method_spec(endpoint.deep_view().method));
    }
    let hname = handler_name(endpoint.method.as_str(), endpoint.path.as_str());
    let mut r = String::new();
    r.append("    .route(\"");
    r.append(endpoint.path.as_str());
    r.append("\", ");
    r.append(method.as_str());
    r.append("().to(");
    r.append(hname.as_str());
    r.append("))\n");
    proof {
        assert(r@ =~= actix_route_line_spec(endpoint.deep_view()));
    }
    r
}

/// Renders the layer chain of one endpoint's middleware references.
#[verifier::loop_isolation(false)]
fn axum_layers_for(middlewares: &Option<Vec<String>>) -> (r: String)
    ensures
        r@ == axum_layers_spec(
            match middlewares.deep_view() {
                Some(ns) => ns,
                None => Seq::empty(),
            },
        ),
{
    let mut layers = String::new();
    match middlewares {
        None => {},
        Some(names) => {
            let ghost ns = names.deep_view();
            let mut k: usize = 0;
            while k < names.len()
                invariant
                    ns.len() == names@.len(),
                    k <= names@.len(),
                    layers@ == axum_layers_spec(ns.take(k as int)),
                decreases names@.len() - k,
            {
                proof {
                    assert(ns[k as int] == names@[k as int]@);
                }
                let base = middleware_base(names[k].as_str());
                let fname = middleware_fn_name(base.as_str());
                layers.append(".layer(axum::middleware::from_fn_with_state(state.clone(), super::");
                layers.append(fname.as_str());
                layers.append("::");
                layers.append(fname.as_str());
                layers.append("))");
                proof {
                    assert(ns.take(k + 1).drop_last() =~= ns.take(k as int));
                    assert(ns.take(k + 1).last() == ns[k as int]);
                    assert(layers@ =~= axum_layers_spec(ns.take(k + 1)));
                }
                k = k + 1;
            }
            proof {
                assert(ns.take(names@.len() as int) =~= ns);
            }
        },
    }
    layers
}

impl Template {
    /// Wraps a configuration for artifact generation.
    pub fn new(config: Config) -> (r: Template)
        ensures
            r.config == config,
    {
        Template { config }
    }

    /// Renders the domain-model file of one model.
    #[verifier::loop_isolation(false)]
    pub fn generate_model_content(&self, model: &Model) -> (r: String)
        ensures
            r@ == model_content_spec(model.deep_view()),
    {
        let ghost fs = model.fields.deep_view();
        let mut lines: Vec<String> = Vec::new();
        let mut i: usize = 0;
        while i < model.fields.len()
            invariant
                i <= model.fields@.len(),
                lines.deep_view() =~= fs.take(i as int).map_values(
                    |f: FieldV| model_field_line_spec(f),
                ),
            decreases model.fields@.len() - i,
        {
            proof {
                assert(fs[i as int] == model.fields@[i as int].deep_view());
            }
            let mut line = String::new();
            line.append("    pub ");
            line.append(model.fields[i].name.as_str());
            line.append(": ");
            line.append(model.fields[i].field_type.as_str());
            line.append(",");
            proof {
                assert(line@ =~= model_field_line_spec(fs[i as int]));
            }
            let ghost before = lines.deep_view();
            lines.push(line);
            proof {
                assert(lines.deep_view() =~= before.push(model_field_line_spec(fs[i as int])));
                assert(fs.take(i + 1).map_values(|f: FieldV| model_field_line_spec(f))
                    =~= before.push(model_field_line_spec(fs[i as int])));
            }
            i = i + 1;
        }
        proof {
            assert(fs.take(model.fields@.len() as int) =~= fs);
        }
        let fields = join_strs(&lines, "\n");
        let mut r = String::new();
        r.append(
            "use serde::{Deserialize, Serialize};\nuse prkorm::Table;\nuse sqlx::FromRow;\n\n#[derive(Debug, Serialize, Deserialize, Table, Default, FromRow)]\n#[table_name(\"",
        );
        r.append(model.table_name.as_str());
        r.append("\")]\n#[primary_key(\"id\")]\npub struct ");
        r.append(model.name.as_str());
        r.append(" {\n");
        r.append(fields.as_str());
        r.append("\n}");
        proof {
            assert(r@ =~= model_content_spec(model.deep_view()));
        }
        r
    }

    /// Renders the middleware file of one middleware block for the
    /// configured framework.
    pub fn generate_middleware_content(&self, middleware: &Middleware, _db_type: &str) -> (r:
        String)
        ensures
            r@ == middleware_content_spec(
                middleware.deep_view(),
                self.config.deep_view().framework,
            ),
    {
        let model_lower = ascii_lower(middleware.model.as_str());
        match self.config.framework {
            Framework::Axum => {
                let mut r = String::new();
                r.append(
                    "use crate::adapters::http::http::AppState;\nuse crate::domain::error::AppError;\nuse axum::{extract::{State, Request}, middleware::Next, response::Response};\n\npub async fn ",
                );
                r.append(model_lower.as_str());
                r.append(
                    "_middleware(\nState(state): State<AppState>,\nrequest: Request,\nnext: Next,\n) -> Result<Response, AppError> {\nlet service = state.",
                );
                r.append(model_lower.as_str());
                r.append("_service;\ntracing::info!(\"Processing request for ");
                r.append(middleware.model.as_str());
                r.append(" model\");\nlet response = next.run(request).await;\nOk(response)\n}");
                proof {
                    assert(r@ =~= axum_middleware_content_spec(middleware.deep_view()));
                }
                r
            },
            Framework::ActixWeb => {
                let mut r = String::new();
                r.append(
                    "use crate::adapters::http::http::AppState;\n                use actix_web::{\n                        body::BoxBody,\n                        dev::{ ServiceRequest, ServiceResponse},\n                        middleware::Next,\n                        web, Error,\n                    };\n                 pub async fn ",
                );
                r.append(model_lower.as_str());
                r.append(
                    "_middleware(\nreq: ServiceRequest,\nnext: Next<BoxBody>,\n) -> Result<ServiceResponse, Error> {\nlet state = req.app_data::<web::Data<AppState>>().unwrap();\nlet service = state.",
                );
                r.append(model_lower.as_str());
                r.append("_service.clone();\ntracing::info!(\"Processing request for ");
                r.append(middleware.model.as_str());
                r.append(" model\");\nlet res = next.call(req).await?;\nOk(res)\n}");
                proof {
                    assert(r@ =~= actix_middleware_content_spec(middleware.deep_view()));
                }
                r
            },
        }
    }

    /// Renders the repository interface of one model.
    pub fn generate_repository_trait(&self, model: &Model) -> (r: String)
        ensures
            r@ == repository_trait_spec(model.deep_view()),
    {
        let lower = ascii_lower(model.name.as_str());
        let name = model.name.as_str();
        let mut r = String::new();
        r.append("use std::future::Future;\nuse crate::domain::models::");
        r.append(lower.as_str());
        r.append("::");
        r.append(name);
        r.append(";\nuse crate::domain::error::AppError;\n\npub trait ");
        r.append(name);
        r.append(
            "Repository: Send + Sync + 'static {\nfn find_all(&self) -> impl Future<Output = Result<Vec<",
        );
        r.append(name);
        r.append(
            ">, AppError>> + Send;\nfn find_by_id(&self, id: i32) -> impl Future<Output = Result<Option<",
        );
        r.append(name);
        r.append(">, AppError>> + Send;\nfn create(&self, body: ");
        r.append(name);
        r.append(") -> impl Future<Output = Result<");
        r.append(name);
        r.append(", AppError>> + Send;\n}");
        proof {
            assert(r@ =~= repository_trait_spec(model.deep_view()));
        }
        r
    }

    /// Renders the repository implementation of one model for a supported
    /// storage dialect. An unrecognized dialect is rejected by validation
    /// before any artifact of the model is produced.
    pub fn generate_repository_impl(&self, model: &Model, database_type: &str) -> (r: String)
        requires
            supported_dialect_spec(database_type@),
        ensures
            r@ == repository_impl_spec(model.deep_view(), database_type@),
    {
        let pool = match pool_type_for(database_type) {
            Some(p) => p,
            None => unreached(),
        };
        let lower = ascii_lower(model.name.as_str());
        let name = model.name.as_str();
        let mut r = String::new();
        r.append("use crate::domain::models::");
        r.append(lower.as_str());
        r.append("::");
        r.append(name);
        r.append(";\nuse crate::domain::ports::");
        r.append(lower.as_str());
        r.append("_repository::");
        r.append(name);
        r.append("Repository;\nuse crate::domain::error::AppError;\nuse sqlx::");
        r.append(database_type);
        r.append(";\n\n#[derive(Clone)]\npub struct Sqlx");
        r.append(name);
        r.append("Repository {\npool: ");
        r.append(pool.as_str());
        r.append(",\n}\n\nimpl Sqlx");
        r.append(name);
        r.append("Repository {\npub fn new(pool: ");
        r.append(pool.as_str());
        r.append(") -> Self {\nSelf { pool }\n}\n}\n\nimpl ");
        r.append(name);
        r.append("Repository for Sqlx");
        r.append(name);
        r.append("Repository {\nasync fn find_all(&self) -> Result<Vec<");
        r.append(name);
        r.append(">, AppError> {\nlet query = ");
        r.append(name);
        r.append(
            "::select().build();\nsqlx::query_as(&query).fetch_all(&self.pool).await.map_err(AppError::from) \n}\nasync fn find_by_id(&self, id: i32) -> Result<Option<",
        );
        r.append(name);
        r.append(">, AppError> {\nlet query = ");
        r.append(name);
        r.append(
            "::select().where_id(id).build();\nsqlx::query_as(&query).fetch_optional(&self.pool).await.map_err(AppError::from) \n}\nasync fn create(&self, body: ",
        );
        r.append(name);
        r.append(") -> Result<");
        r.append(name);
        r.append(", AppError> {\ntodo!()\n}\n// Implement create, update, delete similarly\n}");
        proof {
            assert(r@ =~= repository_impl_spec(model.deep_view(), database_type@));
        }
        r
    }

    /// Renders the service layer of one model.
    pub fn generate_service(&self, model: &Model) -> (r: String)
        ensures
            r@ == service_spec(model.deep_view()),
    {
        let lower = ascii_lower(model.name.as_str());
        let name = model.name.as_str();
        let mut r = String::new();
        r.append("use crate::domain::models::");
        r.append(lower.as_str());
        r.append("::");
        r.append(name);
        r.append(";\nuse crate::domain::ports::");
        r.append(lower.as_str());
        r.append("_repository::");
        r.append(name);
        r.append("Repository;\nuse crate::domain::error::AppError;\n\n#[derive(Clone)]\npub struct ");
        r.append(name);
        r.append("Service<R: ");
        r.append(name);
        r.append("Repository> {\nrepo: R,\n}\n\nimpl<R: ");
        r.append(name);
        r.append("Repository> ");
        r.append(name);
        r.append(
            "Service<R> {\npub fn new(repo: R) -> Self {\nSelf { repo }\n}\n\npub async fn get_all(&self) -> Result<Vec<",
        );
        r.append(name);
        r.append(
            ">, AppError> {\nself.repo.find_all().await\n}\npub async fn get_by_id(&self, id: i32) -> Result<Option<",
        );
        r.append(name);
        r.append(">, AppError> {\nself.repo.find_by_id(id).await\n}\npub async fn create(&self, body: ");
        r.append(name);
        r.append(") -> Result<");
        r.append(name);
        r.append(", AppError> {\nself.repo.create(body).await\n}\n// Add other methods as needed\n}");
        proof {
            assert(r@ =~= service_spec(model.deep_view()));
        }
        r
    }

    /// Renders the error module for the configured framework.
    pub fn generate_error_content(&self) -> (r: String)
        ensures
            r@ == error_content_spec(self.config.deep_view().framework),
    {
        match self.config.framework {
            Framework::Axum => str_owned(
                "use axum::{response::IntoResponse, http::StatusCode};\nuse thiserror::Error;\n\n#[derive(Error, Debug)]\npub enum AppError {\n#[error(\"Database error: {0}\")]\nDatabase(#[from] sqlx::Error),\n#[error(\"Not found: {0}\")]\nNotFound(String),\n#[error(\"Unauthorized: {0}\")]\nUnauthorized(String),\n}\n\nimpl IntoResponse for AppError {\nfn into_response(self) -> axum::response::Response {\nmatch self {\nAppError::Database(_) => (StatusCode::INTERNAL_SERVER_ERROR, self.to_string()).into_response(),\nAppError::NotFound(msg) => (StatusCode::NOT_FOUND, msg).into_response(),\nAppError::Unauthorized(_) => (StatusCode::UNAUTHORIZED, self.to_string()).into_response(),\n}\n}\n}",
            ),
            Framework::ActixWeb => str_owned(
                "use actix_web::{error::Error as ActixError, HttpResponse, http::StatusCode};\nuse thiserror::Error;\n\n#[derive(Error, Debug)]\npub enum AppError {\n#[error(\"Database error: {0}\")]\nDatabase(#[from] sqlx::Error),\n#[error(\"Not found: {0}\")]\nNotFound(String),\n#[error(\"Unauthorized: {0}\")]\nUnauthorized(String),\n}\n\nimpl actix_web::error::ResponseError for AppError {\nfn error_response(&self) -> HttpResponse {\nmatch self {\nAppError::Database(_) => HttpResponse::InternalServerError().body(self.to_string()),\nAppError::NotFound(msg) => HttpResponse::NotFound().body(msg.clone()),\nAppError::Unauthorized(_) => HttpResponse::Unauthorized().body(self.to_string()),\n}\n}\n}",
            ),
        }
    }

    /// Renders the route table for the configured framework.
    pub fn generate_router(&self) -> (r: String)
        ensures
            r@ == router_spec(self.config.deep_view()),
    {
        match self.config.framework {
            Framework::Axum => self.generate_axum_router(),
            Framework::ActixWeb => self.generate_actix_router(),
        }
    }

    /// Renders the axum route table: each endpoint's middleware references
    /// are applied as an ordered chain of layers around the base handler.
    #[verifier::loop_isolation(false)]
    #[verifier::rlimit(100)]
    fn generate_axum_router(&self) -> (r: String)
        ensures
            r@ == axum_router_spec(self.config.deep_view().models),
    {
        let ghost ms = self.config.deep_view().models;
        let mut routes = String::new();
        let mut i: usize = 0;
        while i < self.config.models.len()
            invariant
                i <= self.config.models@.len(),
                routes@ == axum_router_spec(ms.take(i as int)),
            decreases self.config.models@.len() - i,
        {
            proof {
                assert(ms[i as int] == self.config.models@[i as int].deep_view());
                assert(ms.take(i + 1).drop_last() =~= ms.take(i as int));
                assert(ms.take(i + 1).last() == ms[i as int]);
            }
            match &self.config.models[i].endpoints {
                None => {
                    proof {
                        assert(routes@ =~= axum_router_spec(ms.take(i + 1)));
                    }
                },
                Some(endpoints) => {
                    let ghost es = endpoints.deep_view();
                    let mut j: usize = 0;
                    while j < endpoints.len()
                        invariant
                            i < self.config.models@.len(),
                            es == endpoints_of(ms[i as int]),
                            es.len() == endpoints@.len(),
                            j <= endpoints@.len(),
                            routes@ == axum_router_spec(ms.take(i as int))
                                + axum_endpoint_routes_spec(es.take(j as int)),
                        decreases endpoints@.len() - j,
                    {
                        proof {
                            assert(es[j as int] == endpoints@[j as int].deep_view());
                        }
                        let line = axum_route_line(&endpoints[j]);
                        routes.append(line.as_str());
                        proof {
                            assert(es.take(j + 1).drop_last() =~= es.take(j as int));
                            assert(es.take(j + 1).last() == es[j as int]);
                            assert(routes@ =~= axum_router_spec(ms.take(i as int))
                                + axum_endpoint_routes_spec(es.take(j + 1)));
                        }
                        j = j + 1;
                    }
                    proof {
                        assert(es.take(endpoints@.len() as int) =~= es);
                        assert(routes@ =~= axum_router_spec(ms.take(i + 1)));
                    }
                },
            }
            i = i + 1;
        }
        proof {
            assert(ms.take(self.config.models@.len() as int) =~= ms);
        }
        routes
    }

    /// Renders the HTTP server file for the configured framework.
    pub fn generate_http_content(&self) -> (r: String)
        ensures
            r@ == http_content_spec(self.config.deep_view()),
    {
        match self.config.framework {
            Framework::Axum => self.generate_axum_http_content(),
            Framework::ActixWeb => self.generate_actix_http_content(),
        }
    }

    /// Renders the axum HTTP server file.
    fn generate_axum_http_content(&self) -> (r: String)
        ensures
            r@ == axum_http_content_spec(self.config.deep_view().models),
    {
        let app_state = app_state_block(&self.config.models);
        let handlers = handlers_block(&self.config.models, Framework::Axum);
        let new_params = new_params_block(&self.config.models);
        let state_fields = state_fields_block(&self.config.models, StateLineKind::AxumArc);
        let router = self.generate_axum_router();
        let mut r = String::new();
        r.append(
            "\n    use std::{net::SocketAddr, sync::Arc};\n    use anyhow::Context;\n    use serde::*;\n    use axum::{routing::{get, post}, Router, http::StatusCode, extract::*};\n    use tokio::net;\n    use tower_http::{cors::CorsLayer, trace::TraceLayer};\n    use crate::infrastructure::*;\n    use crate::domain::*;\n    use crate::application::services;\n    use crate::domain::error::AppError;\n    \n    #[derive(Debug, Clone, PartialEq, Eq)]\n    pub struct HttpServerConfig<'a> {\n        pub port: &'a str,\n    }\n    \n    ",
        );
        r.append(app_state.as_str());
        r.append("\n    \n    ");
        r.append(handlers.as_str());
        r.append(
            "\n    \n    pub struct HttpServer {\n        router: Router,\n        listener: net::TcpListener,\n    }\n    \n    impl HttpServer {\n        pub async fn new(\n            ",
        );
        r.append(new_params.as_str());
        r.append(
            ",\n            config: HttpServerConfig<'_>,\n        ) -> anyhow::Result<Self> {\n            let trace_layer = TraceLayer::new_for_http().make_span_with(\n                |request: &axum::extract::Request<_>| {\n                    let uri = request.uri().to_string();\n                    tracing::info_span!(\"http_request\", method = ?request.method(), uri)\n                }\n            );\n    \n            let state = AppState {\n    ",
        );
        r.append(state_fields.as_str());
        r.append(
            "\n            };\n    \n            let router = Router::new()\n                .route(\"/health\", get(health_route))\n                .nest(\"/api\", api_routes(state.clone()))\n                .layer(CorsLayer::permissive())\n                .layer(trace_layer)\n                .with_state(state);\n    \n            let addr = SocketAddr::from((\n                [0, 0, 0, 0, 0, 0, 0, 0],\n                config.port.parse::<u16>().unwrap_or(3000),\n            ));\n    \n            let listener = net::TcpListener::bind(&addr)\n                .await\n                .with_context(|| format!(\"failed to listen on port {}\", config.port))?;\n    \n            Ok(Self { router, listener })\n        }\n    \n        pub async fn run(self) -> anyhow::Result<()> {\n            tracing::debug!(\"listening on {}\", self.listener.local_addr().unwrap());\n            axum::serve(self.listener, self.router)\n                .await\n                .context(\"received error from running server\")?;\n            Ok(())\n        }\n    }\n    \n    fn api_routes(state: AppState) -> Router<AppState> {\n        Router::new()\n    ",
        );
        r.append(router.as_str());
        r.append(
            "\n    }\n    \n    async fn health_route() -> (StatusCode, &'static str) {\n        (StatusCode::OK, \"OK\")\n    }\n            ",
        );
        proof {
            let msv = self.config.deep_view().models;
            assert(msv.map_values(|m: ModelV| state_line_spec(m, StateLineKind::AxumArc))
                =~= msv.map_values(|m: ModelV| axum_state_field_line_spec(m)));
            assert(state_fields@ == axum_state_fields_spec(msv));
            assert(r@ =~= axum_http_content_spec(msv));
        }
        r
    }

    /// Renders the actix HTTP server file.
    fn generate_actix_http_content(&self) -> (r: String)
        ensures
            r@ == actix_http_content_spec(self.config.deep_view().models),
    {
        let app_state = app_state_block(&self.config.models);
        let handlers = handlers_block(&self.config.models, Framework::ActixWeb);
        let new_params = new_params_block(&self.config.models);
        let state_fields = state_fields_block(&self.config.models, StateLineKind::ActixPlain);
        let self_state_fields = state_fields_block(
            &self.config.models,
            StateLineKind::ActixSelfArc,
        );
        let router = self.generate_actix_router();
        let mut r = String::new();
        r.append(
            "\n    use actix_web::{web, App, HttpResponse};\n    use std::sync::Arc;\n    use anyhow::Context;\n    use crate::infrastructure::*;\n    use crate::domain::*;\n    use crate::application::services;\n    use crate::domain::error::AppError;\n    use serde::*;\n    \n    #[derive(Debug, Clone, PartialEq, Eq)]\n    pub struct HttpServerConfig {\n        pub port: String,\n    }\n    \n    ",
        );
        r.append(app_state.as_str());
        r.append("\n    \n    ");
        r.append(handlers.as_str());
        r.append("\n    \n    pub struct HttpServer {\n    ");
        r.append(new_params.as_str());
        r.append(
            ",\n    config: HttpServerConfig\n    }\n    \n    impl HttpServer {\n\n        pub async fn new(\n        ",
        );
        r.append(new_params.as_str());
        r.append(
            ",\n        config: HttpServerConfig,\n        ) -> anyhow::Result<Self> {\n            Ok(\n            Self {config, ",
        );
        r.append(state_fields.as_str());
        r.append(
            "} \n            )\n        }\n\n        pub async fn run(self) -> anyhow::Result<()> {\n            let state = web::Data::new(AppState {\n    ",
        );
        r.append(self_state_fields.as_str());
        r.append(
            "\n            });\n    \n            actix_web::HttpServer::new(move || {\n                App::new()\n                    .app_data(state.clone())\n                    .route(\"/health\", web::get().to(health_route))\n                    .service(\n                        web::scope(\"/api\")\n    ",
        );
        r.append(router.as_str());
        r.append(
            "\n                    )\n            })\n            .bind(format!(\"0.0.0.0:{}\", self.config.port.parse::<u16>().unwrap_or(3000)))?\n            .run()\n            .await\n            .context(\"received error from running server\")?;\n            Ok(())\n        }\n    }\n    \n    async fn health_route() -> impl actix_web::Responder {\n        HttpResponse::Ok().body(\"OK\")\n    }\n            ",
        );
        proof {
            let msv = self.config.deep_view().models;
            assert(msv.map_values(|m: ModelV| state_line_spec(m, StateLineKind::ActixPlain))
                =~= msv.map_values(|m: ModelV| actix_state_field_line_spec(m)));
            assert(state_fields@ == actix_state_fields_spec(msv));
            assert(msv.map_values(|m: ModelV| state_line_spec(m, StateLineKind::ActixSelfArc))
                =~= msv.map_values(|m: ModelV| actix_self_state_field_line_spec(m)));
            assert(self_state_fields@ == actix_self_state_fields_spec(msv));
            assert(r@ =~= actix_http_content_spec(msv));
        }
        r
    }

    /// Renders the actix route table.
    #[verifier::loop_isolation(false)]
    #[verifier::rlimit(60)]
    fn generate_actix_router(&self) -> (r: String)
        ensures
            r@ == actix_router_spec(self.config.deep_view().models),
    {
        let ghost ms = self.config.deep_view().models;
        let mut routes = String::new();
        let mut i: usize = 0;
        while i < self.config.models.len()
            invariant
                i <= self.config.models@.len(),
                routes@ == actix_router_spec(ms.take(i as int)),
            decreases self.config.models@.len() - i,
        {
            proof {
                assert(ms[i as int] == self.config.models@[i as int].deep_view());
                assert(ms.take(i + 1).drop_last() =~= ms.take(i as int));
                assert(ms.take(i + 1).last() == ms[i as int]);
            }
            match &self.config.models[i].endpoints {
                None => {
                    proof {
                        assert(routes@ =~= actix_router_spec(ms.take(i + 1)));
                    }
                },
                Some(endpoints) => {
                    let ghost es = endpoints.deep_view();
                    let mut j: usize = 0;
                    while j < endpoints.len()
                        invariant
                            i < self.config.models@.len(),
                            es == endpoints_of(ms[i as int]),
                            es.len() == endpoints@.len(),
                            j <= endpoints@.len(),
                            routes@ == actix_router_spec(ms.take(i as int))
                                + actix_endpoint_routes_spec(es.take(j as int)),
                        decreases endpoints@.len() - j,
                    {
                        proof {
                            assert(es[j as int] == endpoints@[j as int].deep_view());
                        }
                        let line = actix_route_line(&endpoints[j]);
                        routes.append(line.as_str());
                        proof {
                            assert(es.take(j + 1).drop_last() =~= es.take(j as int));
                            assert(es.take(j + 1).last() == es[j as int]);
                            assert(routes@ =~= actix_router_spec(ms.take(i as int))
                                + actix_endpoint_routes_spec(es.take(j + 1)));
                        }
                        j = j + 1;
                    }
                    proof {
                        assert(es.take(endpoints@.len() as int) =~= es);
                        assert(routes@ =~= actix_router_spec(ms.take(i + 1)));
                    }
                },
            }
            i = i + 1;
        }
        proof {
            assert(ms.take(self.config.models@.len() as int) =~= ms);
        }
        routes
    }
}

} // verus!
