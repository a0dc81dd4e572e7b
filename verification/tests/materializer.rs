use std::cell::RefCell;

use scaffolder::adapters::cli_adapter::CliAdapter;
use scaffolder::application::project_service::plan_project;
use scaffolder::application::project_service::ProjectService;
use scaffolder::domain::config::Config;
use scaffolder::domain::config::Endpoint;
use scaffolder::domain::config::Field;
use scaffolder::domain::config::Framework;
use scaffolder::domain::config::Middleware;
use scaffolder::domain::config::Model;
use scaffolder::domain::ports::FileSystem;
use scaffolder::domain::ports::FsError;
use scaffolder::domain::ports::GenError;
use scaffolder::domain::ports::ProjectGenerator;
use scaffolder::domain::template::Template;
use scaffolder::domain::validate::validate_config;
use scaffolder::domain::validate::ConfigError;

fn endpoint(method: &str, path: &str) -> Endpoint {
    Endpoint {
        method: String::from(method),
        path: String::from(path),
        middlewares: None,
        path_params: None,
        body_params: None,
        query_params: None,
    }
}

fn todo_config() -> Config {
    Config {
        project_name: String::from("todo_api"),
        database_url: String::from("postgres://user@localhost/db"),
        database_type: String::from("postgres"),
        models: vec![Model {
            name: String::from("Todo"),
            table_name: String::from("todos"),
            fields: vec![
                Field { name: String::from("id"), field_type: String::from("i32") },
                Field { name: String::from("title"), field_type: String::from("String") },
            ],
            endpoints: Some(vec![endpoint("GET", "/todo"), Endpoint {
                method: String::from("GET"),
                path: String::from("/todo/{id}"),
                middlewares: None,
                path_params: Some(vec![
                    Field { name: String::from("id"), field_type: String::from("i32") },
                ]),
                body_params: None,
                query_params: None,
            }]),
        }],
        middlewares: None,
        framework: Framework::Axum,
    }
}

#[test]
fn todo_scenario_produces_expected_plan() {
    let template = Template::new(todo_config());
    let plan = plan_project(&template).unwrap();

    assert_eq!(plan.dirs[0], "todo_api");
    assert_eq!(plan.dirs[1], "todo_api/src");
    assert!(plan.dirs.contains(&String::from("todo_api/src/adapters/http")));

    let paths: Vec<&str> = plan.files.iter().map(|f| f.path.as_str()).collect();
    assert!(paths.contains(&"todo_api/Cargo.toml"));
    assert!(paths.contains(&"todo_api/src/main.rs"));
    assert!(paths.contains(&"todo_api/src/domain/models/todo.rs"));
    assert!(paths.contains(&"todo_api/src/domain/ports/todo_repository.rs"));
    assert!(paths.contains(&"todo_api/src/infrastructure/repositories/sqlx_todo_repository.rs"));
    assert!(paths.contains(&"todo_api/src/application/services/todo_service.rs"));
    assert!(paths.contains(&"todo_api/src/adapters/http/http.rs"));
    assert!(paths.contains(&"todo_api/src/domain/error.rs"));

    let http = plan
        .files
        .iter()
        .find(|f| f.path == "todo_api/src/adapters/http/http.rs")
        .unwrap();
    assert!(http.content.contains("let items = state.todo_service.get_all().await?;"));
    assert!(http.content.contains(
        "let item = state.todo_service.get_by_id(params.id).await?.ok_or(AppError::NotFound(format!(\"Not found\")))?;"
    ));

    let aggregation: Vec<_> = plan
        .files
        .iter()
        .filter(|f| f.path == "todo_api/src/adapters/http/mod.rs")
        .collect();
    assert!(aggregation.len() >= 1);
    for f in &aggregation {
        assert_eq!(f.content, "pub mod http;\npub use http::*;\n\n");
    }
}

#[test]
fn two_runs_are_byte_identical() {
    let plan1 = plan_project(&Template::new(todo_config())).unwrap();
    let plan2 = plan_project(&Template::new(todo_config())).unwrap();
    assert_eq!(plan1.dirs.len(), plan2.dirs.len());
    for (a, b) in plan1.dirs.iter().zip(plan2.dirs.iter()) {
        assert_eq!(a, b);
    }
    assert_eq!(plan1.files.len(), plan2.files.len());
    for (a, b) in plan1.files.iter().zip(plan2.files.iter()) {
        assert_eq!(a.path, b.path);
        assert_eq!(a.content, b.content);
    }
}

#[test]
fn empty_model_list_still_scaffolds_the_skeleton() {
    let mut config = todo_config();
    config.models = Vec::new();
    let plan = plan_project(&Template::new(config)).unwrap();
    assert_eq!(plan.dirs.len(), 11);
    let main = plan.files.iter().find(|f| f.path == "todo_api/src/main.rs").unwrap();
    assert!(main.content.contains("HttpServer::new(, config)"));
    let models_mod = plan
        .files
        .iter()
        .find(|f| f.path == "todo_api/src/domain/models/mod.rs")
        .unwrap();
    assert_eq!(models_mod.content, "");
}

#[test]
fn model_without_endpoints_generates_no_handlers() {
    let mut config = todo_config();
    config.models[0].endpoints = None;
    let plan = plan_project(&Template::new(config)).unwrap();
    let http = plan
        .files
        .iter()
        .find(|f| f.path == "todo_api/src/adapters/http/http.rs")
        .unwrap();
    assert!(!http.content.contains("pub async fn get_todo"));
    assert!(http.content.contains("pub struct AppState"));
    assert!(http.content.contains("todo_service"));
}

#[test]
fn duplicate_handler_names_reject_the_configuration() {
    let mut config = todo_config();
    config.models[0].endpoints = Some(vec![endpoint("GET", "/todo"), endpoint("get", "/todo")]);
    assert_eq!(validate_config(&config), Err(ConfigError::DuplicateHandler));
    assert!(plan_project(&Template::new(config)).is_err());
}

#[test]
fn unknown_middleware_reference_rejects_the_configuration() {
    let mut config = todo_config();
    config.models[0].endpoints = Some(vec![Endpoint {
        method: String::from("GET"),
        path: String::from("/todo"),
        middlewares: Some(vec![String::from("GhostMiddleware")]),
        path_params: None,
        body_params: None,
        query_params: None,
    }]);
    assert_eq!(validate_config(&config), Err(ConfigError::UnknownMiddleware));
}

#[test]
fn resolved_middleware_reference_is_accepted() {
    let mut config = todo_config();
    config.middlewares = Some(vec![Middleware { model: String::from("Auth") }]);
    config.models[0].endpoints = Some(vec![Endpoint {
        method: String::from("GET"),
        path: String::from("/todo"),
        middlewares: Some(vec![String::from("AuthMiddleware")]),
        path_params: None,
        body_params: None,
        query_params: None,
    }]);
    assert_eq!(validate_config(&config), Ok(()));
    let plan = plan_project(&Template::new(config)).unwrap();
    let paths: Vec<&str> = plan.files.iter().map(|f| f.path.as_str()).collect();
    assert!(paths.contains(&"todo_api/src/adapters/http/auth_middleware.rs"));
    let aggregation = plan
        .files
        .iter()
        .rev()
        .find(|f| f.path == "todo_api/src/adapters/http/mod.rs")
        .unwrap();
    assert_eq!(
        aggregation.content,
        "pub mod http;\npub use http::*;\n\npub mod auth_middleware;\npub use auth_middleware::*;\n\n"
    );
}

#[test]
fn unsupported_dialect_rejects_the_configuration() {
    let mut config = todo_config();
    config.database_type = String::from("sqlite");
    assert_eq!(validate_config(&config), Err(ConfigError::UnsupportedDialect));
    assert!(plan_project(&Template::new(config)).is_err());
}

#[test]
fn mod_rs_content_lists_each_module() {
    let service = ProjectService::new(NullFs);
    let names = vec![String::from("todo"), String::from("user")];
    assert_eq!(
        service.generate_mod_rs_content(&names),
        "pub mod todo;\npub use todo::*;\n\npub mod user;\npub use user::*;\n\n"
    );
}

struct NullFs;

impl FileSystem for NullFs {
    fn create_dir_all(&self, _path: &str) -> Result<(), FsError> {
        Ok(())
    }

    fn write_file(&self, _path: &str, _content: &str) -> Result<(), FsError> {
        Ok(())
    }

    fn read_to_string(&self, _path: &str) -> Result<String, FsError> {
        Err(FsError { message: String::from("nothing to read") })
    }
}

struct RecordingFs {
    dirs: RefCell<Vec<String>>,
    files: RefCell<Vec<(String, String)>>,
}

impl FileSystem for RecordingFs {
    fn create_dir_all(&self, path: &str) -> Result<(), FsError> {
        self.dirs.borrow_mut().push(String::from(path));
        Ok(())
    }

    fn write_file(&self, path: &str, content: &str) -> Result<(), FsError> {
        self.files.borrow_mut().push((String::from(path), String::from(content)));
        Ok(())
    }

    fn read_to_string(&self, _path: &str) -> Result<String, FsError> {
        Err(FsError { message: String::from("nothing to read") })
    }
}

#[test]
fn generate_project_writes_dirs_before_files() {
    let fs = RecordingFs { dirs: RefCell::new(Vec::new()), files: RefCell::new(Vec::new()) };
    let service = ProjectService::new(fs);
    let adapter = CliAdapter::new(service);
    let outcome = adapter.project_service.generate_project(todo_config());
    assert!(outcome.is_ok());
    let dirs = adapter.project_service.file_system.dirs.borrow();
    let files = adapter.project_service.file_system.files.borrow();
    assert_eq!(dirs.len(), 11);
    assert_eq!(dirs[0], "todo_api");
    assert!(files.iter().any(|(p, _)| p == "todo_api/src/main.rs"));
    assert!(files.iter().any(|(p, c)| p == "todo_api/.env"
        && c == "\nDATABASE_URL = \"postgres://user@localhost/db\"\n        "));
}

#[test]
fn generate_project_rejects_invalid_configuration_without_writing() {
    let fs = RecordingFs { dirs: RefCell::new(Vec::new()), files: RefCell::new(Vec::new()) };
    let service = ProjectService::new(fs);
    let mut config = todo_config();
    config.database_type = String::from("sqlite");
    let outcome = service.generate_project(config);
    assert!(matches!(outcome, Err(GenError::Config(ConfigError::UnsupportedDialect))));
    assert_eq!(service.file_system.dirs.borrow().len(), 0);
    assert_eq!(service.file_system.files.borrow().len(), 0);
}

struct FailingFs;

impl FileSystem for FailingFs {
    fn create_dir_all(&self, _path: &str) -> Result<(), FsError> {
        Ok(())
    }

    fn write_file(&self, _path: &str, _content: &str) -> Result<(), FsError> {
        Err(FsError { message: String::from("disk full") })
    }

    fn read_to_string(&self, _path: &str) -> Result<String, FsError> {
        Err(FsError { message: String::from("nothing to read") })
    }
}

#[test]
fn write_failure_aborts_the_run() {
    let service = ProjectService::new(FailingFs);
    let outcome = service.generate_project(todo_config());
    assert!(matches!(outcome, Err(GenError::Io(_))));
}
