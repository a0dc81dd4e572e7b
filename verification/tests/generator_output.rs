use scaffolder::domain::config::Config;
use scaffolder::domain::config::Endpoint;
use scaffolder::domain::config::Field;
use scaffolder::domain::config::Framework;
use scaffolder::domain::config::Middleware;
use scaffolder::domain::config::Model;
use scaffolder::domain::template::Template;
use scaffolder::output::cargo_toml_content::cargo_toml_content;
use scaffolder::output::compose_yaml_content::compose_yaml_content;
use scaffolder::output::database_connection_content::database_connection_content;
use scaffolder::output::dockerfile_content::dockerfile_content;
use scaffolder::output::env_content::env_content;
use scaffolder::output::http_content::generate_handler;
use scaffolder::output::ignore_content::docker_ignore_content;
use scaffolder::output::ignore_content::git_ignore_content;
use scaffolder::output::main_content::main_content;

fn endpoint(method: &str, path: &str) -> Endpoint {
    Endpoint {
        method: String::from(method),
        path: String::from(path),
        middlewares: None,
        path_params: None,
        body_params: None,
        query_params: None,
    }
}

fn todo_model() -> Model {
    Model {
        name: String::from("Todo"),
        table_name: String::from("todos"),
        fields: vec![
            Field { name: String::from("id"), field_type: String::from("i32") },
            Field { name: String::from("title"), field_type: String::from("String") },
        ],
        endpoints: Some(vec![endpoint("GET", "/todo"), Endpoint {
            method: String::from("GET"),
            path: String::from("/todo/{id}"),
            middlewares: None,
            path_params: Some(vec![
                Field { name: String::from("id"), field_type: String::from("i32") },
            ]),
            body_params: None,
            query_params: None,
        }]),
    }
}

fn todo_config(framework: Framework) -> Config {
    Config {
        project_name: String::from("todo_api"),
        database_url: String::from("postgres://user@localhost/db"),
        database_type: String::from("postgres"),
        models: vec![todo_model()],
        middlewares: None,
        framework,
    }
}

#[test]
fn env_content_exact() {
    assert_eq!(
        env_content("postgres://user@localhost/db"),
        "\nDATABASE_URL = \"postgres://user@localhost/db\"\n        "
    );
}

#[test]
fn dockerfile_content_exact() {
    assert_eq!(
        dockerfile_content("todo_api"),
        "\nFROM rust:1.70 AS builder\nWORKDIR /usr/src/todo_api\nCOPY . .\nRUN cargo build --release\n\nFROM debian:buster-slim\nCOPY --from=builder /usr/src/todo_api/target/release/todo_api /usr/local/bin/app\nCMD [\"app\"]\n"
    );
}

#[test]
fn ignore_files_fixed() {
    assert_eq!(docker_ignore_content(), "target\n.git\n.env\n");
    assert_eq!(git_ignore_content(), "/target\n.env\n");
}

#[test]
fn compose_picks_database_image() {
    let mysql = compose_yaml_content("MySQL");
    assert!(mysql.contains("image: mysql:8.0"));
    assert!(mysql.contains("3306:3306"));
    let pg = compose_yaml_content("postgres");
    assert!(pg.contains("image: postgres:15"));
    assert!(pg.contains("5432:5432"));
    let other = compose_yaml_content("sqlite");
    assert!(other.contains("image: postgres:15"));
}

#[test]
fn database_connection_picks_pool_prefix() {
    let pg = database_connection_content("postgres");
    assert!(pg.contains("-> Result<PgPool, sqlx::Error>"));
    assert!(pg.contains("PgPool::connect(&database_url).await"));
    let mysql = database_connection_content("my_sql");
    assert!(mysql.contains("MySqlPool::connect"));
    let sqlite = database_connection_content("sqlite");
    assert!(sqlite.contains("SqlitePool::connect"));
}

#[test]
fn cargo_toml_declares_framework_dependency() {
    let axum = cargo_toml_content("todo_api", "postgres", false, &Framework::Axum);
    assert!(axum.contains("name = \"todo_api\""));
    assert!(axum.contains("axum = \"0.8.1\"\n"));
    assert!(axum.contains("features = [\"rt-multi-thread\"]"));
    assert!(axum.contains("\"runtime-tokio-rustls\", \"postgres\""));
    let actix = cargo_toml_content("todo_api", "postgres", false, &Framework::ActixWeb);
    assert!(actix.contains("actix-web = \"4\"\n"));
    assert!(actix.contains("features = [\"full\"]"));
    assert!(!actix.contains("axum = "));
}

#[test]
fn list_handler_calls_fetch_all() {
    let model = todo_model();
    let handler = generate_handler(&model, &endpoint("GET", "/todo"), Framework::Axum);
    assert_eq!(
        handler,
        "pub async fn get_todo(State(state): State<AppState>) -> Result<Json<Todo>, AppError> {\nlet items = state.todo_service.get_all().await?;\nOk(Json(items))\n}\n"
    );
}

#[test]
fn get_by_id_handler_maps_empty_result_to_not_found() {
    let model = todo_model();
    let e = Endpoint {
        method: String::from("GET"),
        path: String::from("/todo/{id}"),
        middlewares: None,
        path_params: Some(vec![
            Field { name: String::from("id"), field_type: String::from("i32") },
        ]),
        body_params: None,
        query_params: None,
    };
    let handler = generate_handler(&model, &e, Framework::Axum);
    assert_eq!(
        handler,
        "#[derive(Deserialize)]\npub struct TodoPathParams {\n    pub id: i32,\n}\n\npub async fn get_todo_by_id(State(state): State<AppState>, Path(params): Path<TodoPathParams>) -> Result<Json<Todo>, AppError> {\nlet item = state.todo_service.get_by_id(params.id).await?.ok_or(AppError::NotFound(format!(\"Not found\")))?;\nOk(Json(item))\n}\n"
    );
}

#[test]
fn create_handler_calls_create() {
    let model = todo_model();
    let e = Endpoint {
        method: String::from("POST"),
        path: String::from("/todo"),
        middlewares: None,
        path_params: None,
        body_params: Some(vec![
            Field { name: String::from("title"), field_type: String::from("String") },
        ]),
        query_params: None,
    };
    let handler = generate_handler(&model, &e, Framework::Axum);
    assert!(handler.contains("pub async fn post_todo(State(state): State<AppState>, Json(body): Json<Todo>)"));
    assert!(handler.contains("let item = state.todo_service.create(body).await?;"));
}

#[test]
fn unhandled_shape_degrades_to_placeholder() {
    let model = todo_model();
    let handler = generate_handler(&model, &endpoint("DELETE", "/todo"), Framework::Axum);
    assert!(handler.contains("// TODO: Implement handler logic"));
}

#[test]
fn actix_handler_uses_actix_extractors() {
    let model = todo_model();
    let handler = generate_handler(&model, &endpoint("GET", "/todo"), Framework::ActixWeb);
    assert_eq!(
        handler,
        "pub async fn get_todo(state: web::Data<AppState>) -> Result<web::Json<Todo>, AppError> {\nlet items = state.todo_service.get_all().await?;\nOk(web::Json(items))\n}\n"
    );
}

#[test]
fn model_content_exact() {
    let template = Template::new(todo_config(Framework::Axum));
    let content = template.generate_model_content(&todo_model());
    assert_eq!(
        content,
        "use serde::{Deserialize, Serialize};\nuse prkorm::Table;\nuse sqlx::FromRow;\n\n#[derive(Debug, Serialize, Deserialize, Table, Default, FromRow)]\n#[table_name(\"todos\")]\n#[primary_key(\"id\")]\npub struct Todo {\n    pub id: i32,\n    pub title: String,\n}"
    );
}

#[test]
fn repository_trait_has_three_baseline_operations() {
    let template = Template::new(todo_config(Framework::Axum));
    let content = template.generate_repository_trait(&todo_model());
    assert_eq!(
        content,
        "use std::future::Future;\nuse crate::domain::models::todo::Todo;\nuse crate::domain::error::AppError;\n\npub trait TodoRepository: Send + Sync + 'static {\nfn find_all(&self) -> impl Future<Output = Result<Vec<Todo>, AppError>> + Send;\nfn find_by_id(&self, id: i32) -> impl Future<Output = Result<Option<Todo>, AppError>> + Send;\nfn create(&self, body: Todo) -> impl Future<Output = Result<Todo, AppError>> + Send;\n}"
    );
}

#[test]
fn repository_impl_binds_dialect_pool_and_defers_create() {
    let template = Template::new(todo_config(Framework::Axum));
    let content = template.generate_repository_impl(&todo_model(), "postgres");
    assert!(content.contains("use sqlx::postgres;"));
    assert!(content.contains("pool: sqlx::PgPool,"));
    assert!(content.contains("pub fn new(pool: sqlx::PgPool) -> Self"));
    assert!(content.contains("let query = Todo::select().build();"));
    assert!(content.contains("let query = Todo::select().where_id(id).build();"));
    assert!(content.contains("async fn create(&self, body: Todo) -> Result<Todo, AppError> {\ntodo!()"));
    let mysql = template.generate_repository_impl(&todo_model(), "mysql");
    assert!(mysql.contains("pool: sqlx::MySqlPool,"));
}

#[test]
fn service_layer_delegates_to_repository() {
    let template = Template::new(todo_config(Framework::Axum));
    let content = template.generate_service(&todo_model());
    assert!(content.contains("pub struct TodoService<R: TodoRepository>"));
    assert!(content.contains("pub async fn get_all(&self) -> Result<Vec<Todo>, AppError> {\nself.repo.find_all().await\n}"));
    assert!(content.contains("pub async fn get_by_id(&self, id: i32) -> Result<Option<Todo>, AppError> {\nself.repo.find_by_id(id).await\n}"));
    assert!(content.contains("pub async fn create(&self, body: Todo) -> Result<Todo, AppError> {\nself.repo.create(body).await\n}"));
}

#[test]
fn error_module_per_framework() {
    let axum = Template::new(todo_config(Framework::Axum)).generate_error_content();
    assert!(axum.contains("impl IntoResponse for AppError"));
    assert!(axum.contains("AppError::NotFound(msg) => (StatusCode::NOT_FOUND, msg).into_response(),"));
    let actix = Template::new(todo_config(Framework::ActixWeb)).generate_error_content();
    assert!(actix.contains("impl actix_web::error::ResponseError for AppError"));
    assert!(actix.contains("HttpResponse::NotFound().body(msg.clone()),"));
}

#[test]
fn middleware_content_per_framework() {
    let mw = Middleware { model: String::from("User") };
    let axum = Template::new(todo_config(Framework::Axum)).generate_middleware_content(&mw, "postgres");
    assert!(axum.starts_with("use crate::adapters::http::http::AppState;\nuse crate::domain::error::AppError;\n"));
    assert!(axum.contains("pub async fn user_middleware(\nState(state): State<AppState>,"));
    assert!(axum.contains("let service = state.user_service;"));
    assert!(axum.contains("Processing request for User model"));
    let actix = Template::new(todo_config(Framework::ActixWeb)).generate_middleware_content(&mw, "postgres");
    assert!(actix.contains("pub async fn user_middleware(\nreq: ServiceRequest,"));
    assert!(actix.contains("let service = state.user_service.clone();"));
}

#[test]
fn router_per_framework() {
    let axum = Template::new(todo_config(Framework::Axum)).generate_router();
    assert_eq!(
        axum,
        "    .route(\"/todo\", get(get_todo))\n    .route(\"/todo/{id}\", get(get_todo_by_id))\n"
    );
    let actix = Template::new(todo_config(Framework::ActixWeb)).generate_router();
    assert_eq!(
        actix,
        "    .route(\"/todo\", web::get().to(get_todo))\n    .route(\"/todo/{id}\", web::get().to(get_todo_by_id))\n"
    );
}

#[test]
fn router_applies_middleware_layers_in_order() {
    let mut config = todo_config(Framework::Axum);
    config.middlewares = Some(vec![Middleware { model: String::from("Auth") }]);
    config.models[0].endpoints = Some(vec![Endpoint {
        method: String::from("GET"),
        path: String::from("/todo"),
        middlewares: Some(vec![String::from("AuthMiddleware")]),
        path_params: None,
        body_params: None,
        query_params: None,
    }]);
    let router = Template::new(config).generate_router();
    assert_eq!(
        router,
        "    .route(\"/todo\", get(get_todo).layer(axum::middleware::from_fn_with_state(state.clone(), super::auth_middleware::auth_middleware)))\n"
    );
}

#[test]
fn main_content_initializes_each_model() {
    let content = main_content(&todo_config(Framework::Axum));
    assert!(content.contains(
        "    let todo_repo = infrastructure::repositories::SqlxTodoRepository::new(database_connection.clone());\n"
    ));
    assert!(content.contains(
        "    let todo_service = application::services::TodoService::new(todo_repo);\n"
    ));
    assert!(content.contains("HttpServer::new(todo_service, config)"));
}

#[test]
fn http_content_declares_state_and_handlers() {
    let axum = Template::new(todo_config(Framework::Axum)).generate_http_content();
    assert!(axum.contains("pub struct AppState {\n    pub todo_service: Arc<services::TodoService<SqlxTodoRepository>>,\n\n}"));
    assert!(axum.contains("pub async fn get_todo(State(state): State<AppState>)"));
    assert!(axum.contains(".route(\"/health\", get(health_route))"));
    assert!(axum.contains("todo_service: services::TodoService<SqlxTodoRepository>"));
    let actix = Template::new(todo_config(Framework::ActixWeb)).generate_http_content();
    assert!(actix.contains("actix_web::HttpServer::new(move || {"));
    assert!(actix.contains("pub async fn get_todo(state: web::Data<AppState>)"));
    assert!(actix.contains("web::scope(\"/api\")"));
}

#[test]
fn framework_change_keeps_model_and_repository_artifacts() {
    let axum = Template::new(todo_config(Framework::Axum));
    let actix = Template::new(todo_config(Framework::ActixWeb));
    let model = todo_model();
    assert_eq!(
        axum.generate_model_content(&model),
        actix.generate_model_content(&model)
    );
    assert_eq!(
        axum.generate_repository_trait(&model),
        actix.generate_repository_trait(&model)
    );
    assert_eq!(
        axum.generate_repository_impl(&model, "postgres"),
        actix.generate_repository_impl(&model, "postgres")
    );
    assert_eq!(axum.generate_service(&model), actix.generate_service(&model));
    assert_ne!(axum.generate_http_content(), actix.generate_http_content());
}

#[test]
fn dialect_change_touches_only_dialect_artifacts() {
    let mut pg = todo_config(Framework::Axum);
    pg.database_type = String::from("postgres");
    let mut mysql = todo_config(Framework::Axum);
    mysql.database_type = String::from("mysql");
    let tpg = Template::new(pg);
    let tmysql = Template::new(mysql);
    let model = todo_model();
    assert_eq!(
        tpg.generate_model_content(&model),
        tmysql.generate_model_content(&model)
    );
    assert_eq!(
        tpg.generate_repository_trait(&model),
        tmysql.generate_repository_trait(&model)
    );
    assert_eq!(tpg.generate_http_content(), tmysql.generate_http_content());
    assert_eq!(tpg.generate_router(), tmysql.generate_router());
    assert_ne!(
        tpg.generate_repository_impl(&model, "postgres"),
        tmysql.generate_repository_impl(&model, "mysql")
    );
}
