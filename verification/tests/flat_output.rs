use scaffolder::config::Config;
use scaffolder::endpoints::generate_endpoint;
use scaffolder::endpoints::Endpoint;
use scaffolder::middleware::generate_middleware;
use scaffolder::middleware::Middleware;
use scaffolder::middleware::ValidaHeader;
use scaffolder::models::generate_model;
use scaffolder::models::Field;
use scaffolder::models::Model;
use scaffolder::template::create_router;
use scaffolder::template::generate_module;
use scaffolder::template::modify_files;
use scaffolder::template_create::cargo_toml_content;
use scaffolder::template_create::config_toml_content;
use scaffolder::template_create::main_rs_content;

fn endpoint(method: &str, path: &str) -> Endpoint {
    Endpoint {
        method: String::from(method),
        path: String::from(path),
        middlewares: None,
        path_params: None,
        body_params: None,
        query_params: None,
    }
}

fn todo_model() -> Model {
    Model {
        name: String::from("TodoItem"),
        table_name: String::from("TodoItems"),
        fields: vec![
            Field { name: String::from("id"), field_type: String::from("i32") },
            Field { name: String::from("title"), field_type: String::from("String") },
        ],
        endpoints: Some(vec![endpoint("GET", "/todo"), endpoint("POST", "/todo")]),
    }
}

fn flat_config() -> Config {
    Config {
        project_name: String::from("todo_api"),
        database_url: String::from("postgres://user@localhost/db"),
        database_type: String::from("postgres"),
        models: vec![todo_model()],
        middlewares: None,
    }
}

#[test]
fn flat_model_file_uses_snake_cased_names_and_alias() {
    let (dir, file) = generate_model("todo_api", &todo_model());
    assert_eq!(dir, "./todo_api/src/models");
    assert_eq!(file.path, "./todo_api/src/models/todo_item.rs");
    assert_eq!(
        file.content,
        "use prkorm::Table;\n\n        use serde::{Deserialize, Serialize};\n\n        use sqlx::FromRow;\n\n#[derive(Deserialize, Debug, Table, Serialize, FromRow, Default)]\n#[table_name(\"todo_items\")]\n#[table_alias(\"TI\")]\npub struct TodoItem {\n    pub id: i32,\n    pub title: String,\n}\n"
    );
}

#[test]
fn flat_endpoint_file_for_stub_route() {
    let entry = generate_endpoint("todo_api", &endpoint("POST", "/todo"), "postgres", "TodoItem", false);
    let (dir, file) = entry.unwrap();
    assert_eq!(dir, "./todo_api/src/routes");
    assert_eq!(file.path, "./todo_api/src/routes/post_todo.rs");
    assert!(file.content.starts_with(
        "use axum::{ extract::{State, Path, Query }, http::StatusCode};\nuse axum::Json;\n        use sqlx::*;\nuse axum::response::IntoResponse;\nuse crate::models::todoitem::*;\n\n"
    ));
    assert!(file.content.contains(
        "pub async fn post_todo(State(db): State<PgPool>, ) -> impl IntoResponse {\n    // TODO: Implement endpoint logic\n}\n"
    ));
}

#[test]
fn flat_endpoint_example_only_for_get() {
    assert!(generate_endpoint("todo_api", &endpoint("POST", "/todo"), "postgres", "TodoItem", true)
        .is_none());
    let entry = generate_endpoint("todo_api", &endpoint("GET", "/todo"), "postgres", "TodoItem", true);
    let (dir, file) = entry.unwrap();
    assert_eq!(dir, "./todo_api/src/routes/example");
    assert_eq!(file.path, "./todo_api/src/routes/example/get_todo.rs");
    assert!(file.content.contains("pub async fn get_all_todo(State(db): State<PgPool>, ) -> impl IntoResponse {"));
    assert!(file.content.contains("let query = TodoItem::select().build();"));
    assert!(file.content.contains(".fetch_all(&db)"));
    assert!(file.content.contains("Ok(data) => (StatusCode::OK, Json(data)).into_response(),"));
}

#[test]
fn flat_endpoint_declares_parameter_structs() {
    let e = Endpoint {
        method: String::from("POST"),
        path: String::from("/todo"),
        middlewares: Some(vec![String::from("AuthMiddleware")]),
        path_params: None,
        body_params: Some(vec![
            Field { name: String::from("title"), field_type: String::from("String") },
        ]),
        query_params: None,
    };
    let (_, file) = generate_endpoint("todo_api", &e, "mysql", "TodoItem", false).unwrap();
    assert!(file.content.contains("use crate::middlewares::*;\n"));
    assert!(file.content.contains("pub struct TodoItemBody {\n    pub title: String,\n}\n"));
    assert!(file.content.contains(
        "AuthMiddleware(auth): AuthMiddleware, Json(body): Json<TodoItemBody>, "
    ));
    assert!(file.content.contains("State<MySqlPool>, "));
}

#[test]
fn header_validating_guard_reads_header_and_filters_lookup() {
    let mw = Middleware {
        model: String::from("User"),
        select_from_model: String::from("User"),
        validate_header: vec![ValidaHeader {
            model_field: String::from("api_key"),
            header_key: String::from("X-Api-Key"),
        }],
    };
    let (dir, file) = generate_middleware("todo_api", &String::from("postgres"), &mw);
    assert_eq!(dir, "./todo_api/src/middlewares");
    assert_eq!(file.path, "./todo_api/src/middlewares/user_middleware.rs");
    assert!(file.content.contains("pub struct UserMiddleware(pub User);"));
    assert!(file.content.contains("PgPool: FromRef<S>,"));
    assert!(file.content.contains(" let X-Api-Key = _parts.headers.get(\"X-Api-Key\");"));
    assert!(file.content.contains(
        "None => return Err((StatusCode::INTERNAL_SERVER_ERROR, String::from(\"Missing Header field: X-Api-Key\"))),"
    ));
    assert!(file.content.contains("let query = User::select()\n.where_api_key(X-Api-Key).build();"));
    assert!(file.content.contains(
        "let user = sqlx::query_as(&query).fetch_one(&pool).await.map_err(internal_error)?;"
    ));
    assert!(file.content.contains("(StatusCode::INTERNAL_SERVER_ERROR, err.to_string())"));
}

#[test]
fn flat_router_lists_each_endpoint() {
    let router = create_router(&flat_config());
    assert_eq!(
        router,
        "Router::new()\n    .route(\"/todo/all\",get(get_all_todo))\n    .route(\"/todo\",get(get_todo))\n\t    .route(\"/todo\",post(post_todo))\n\t"
    );
}

#[test]
fn flat_module_file_snake_cases_names() {
    let names = vec![String::from("TodoItem"), String::from("user")];
    let (dir, file) = generate_module("todo_api", "/src/models", &names);
    assert_eq!(dir, "./todo_api/src/models");
    assert_eq!(file.path, "./todo_api/src/models/mod.rs");
    assert_eq!(
        file.content,
        "pub mod todo_item;\npub mod user;\npub use todo_item::*;\npub use user::*;\n"
    );
}

#[test]
fn modify_files_orders_models_endpoints_and_modules() {
    let entries = modify_files("todo_api", &flat_config());
    let paths: Vec<&str> = entries.iter().map(|(_, f)| f.path.as_str()).collect();
    assert_eq!(
        paths,
        vec![
            "./todo_api/src/models/todo_item.rs",
            "./todo_api/src/models/mod.rs",
            "./todo_api/src/routes/get_todo.rs",
            "./todo_api/src/routes/example/get_todo.rs",
            "./todo_api/src/routes/post_todo.rs",
            "./todo_api/src/routes/mod.rs",
            "./todo_api/src/routes/example/mod.rs",
        ]
    );
    let routes_module = &entries[5].1;
    assert_eq!(
        routes_module.content,
        "pub mod get_todo;\npub mod post_todo;\npub mod example;\npub use get_todo::*;\npub use post_todo::*;\npub use example::*;\n"
    );
}

#[test]
fn modify_files_appends_middleware_artifacts() {
    let mut config = flat_config();
    config.middlewares = Some(vec![Middleware {
        model: String::from("User"),
        select_from_model: String::from("User"),
        validate_header: vec![ValidaHeader {
            model_field: String::from("api_key"),
            header_key: String::from("X-Api-Key"),
        }],
    }]);
    let entries = modify_files("todo_api", &config);
    let paths: Vec<&str> = entries.iter().map(|(_, f)| f.path.as_str()).collect();
    assert!(paths.contains(&"./todo_api/src/middlewares/user_middleware.rs"));
    let module = &entries[entries.len() - 1].1;
    assert_eq!(module.path, "./todo_api/src/middlewares/mod.rs");
    assert_eq!(module.content, "pub mod user_middleware;\npub use user_middleware::*;\n");
}

#[test]
fn starter_cargo_toml_exact() {
    assert_eq!(
        cargo_toml_content("todo_api", "postgres"),
        "\n    [package]\n    name = \"todo_api\"\n    version = \"0.1.0\"\n    edition = \"2021\"\n    \n    [dependencies]\n    axum = \"0.7.5\"\n    tokio = { version = \"1\", features = [\"full\"] }\n    sqlx = { version = \"0.7.4\", features = [\"runtime-tokio-rustls\", \"postgres\"] }\n    serde = { version = \"1.0\", features = [\"derive\"] }\n    toml = \"0.8.14\"\n    env_logger = \"0.11.3\"\n    log = \"0.4\"\n\n        "
    );
}

#[test]
fn starter_main_uses_normalized_pool_type() {
    let pg = main_rs_content("postgres");
    assert!(pg.contains("use sqlx::Pg;"));
    assert!(pg.contains("let pool: Pool<Pg> = PoolOptions::new()"));
    let mysql = main_rs_content("my_sql");
    assert!(mysql.contains("use sqlx::MySql;"));
    let sqlite = main_rs_content("SQLite");
    assert!(sqlite.contains("use sqlx::Sqlite;"));
}

#[test]
fn starter_config_toml_exact() {
    assert_eq!(
        config_toml_content("postgres://user@localhost/db"),
        "\ndatabase_url = \"postgres://user@localhost/db\"\n        "
    );
}
