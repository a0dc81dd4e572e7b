use scaffolder::models::get_alias_from_model;
use scaffolder::naming::ascii_lower;
use scaffolder::naming::handler_name;
use scaffolder::naming::handler_path;
use scaffolder::naming::lower_char;
use scaffolder::naming::middleware_base;
use scaffolder::naming::middleware_fn_name;
use scaffolder::naming::pool_prefix;
use scaffolder::naming::pool_type_for;
use scaffolder::naming::service_field;
use scaffolder::text::contains_char;
use scaffolder::text::ends_with;
use scaffolder::text::join_strs;
use scaffolder::text::str_eq;
use scaffolder::text::strip_suffix;

#[test]
fn lower_char_maps_ascii_capitals() {
    assert_eq!(lower_char('A'), 'a');
    assert_eq!(lower_char('Z'), 'z');
    assert_eq!(lower_char('a'), 'a');
    assert_eq!(lower_char('_'), '_');
    assert_eq!(lower_char('é'), 'é');
}

#[test]
fn ascii_lower_lowers_only_ascii() {
    assert_eq!(ascii_lower("TodoItem"), "todoitem");
    assert_eq!(ascii_lower("GET"), "get");
    assert_eq!(ascii_lower("already_lower"), "already_lower");
    assert_eq!(ascii_lower(""), "");
}

#[test]
fn handler_path_renders_separators_and_braces() {
    assert_eq!(handler_path("/todo"), "_todo");
    assert_eq!(handler_path("/todo/{id}"), "_todo_by_id");
    assert_eq!(handler_path("/a/:id"), "_a_id");
    assert_eq!(handler_path(""), "");
}

#[test]
fn handler_name_prefixes_lowered_method() {
    assert_eq!(handler_name("GET", "/todo"), "get_todo");
    assert_eq!(handler_name("post", "/todo"), "post_todo");
    assert_eq!(handler_name("GET", "/todo/{id}"), "get_todo_by_id");
}

#[test]
fn service_field_is_lower_model_with_suffix() {
    assert_eq!(service_field("Todo"), "todo_service");
    assert_eq!(service_field("UserAccount"), "useraccount_service");
}

#[test]
fn middleware_base_strips_suffix_case_insensitively() {
    assert_eq!(middleware_base("AuthMiddleware"), "auth");
    assert_eq!(middleware_base("auth_middleware"), "auth");
    assert_eq!(middleware_base("authmiddleware"), "auth");
    assert_eq!(middleware_base("auth"), "auth");
}

#[test]
fn middleware_fn_name_appends_suffix() {
    assert_eq!(middleware_fn_name("auth"), "auth_middleware");
}

#[test]
fn pool_type_accepts_exactly_the_two_dialects() {
    assert_eq!(pool_type_for("postgres"), Some(String::from("sqlx::PgPool")));
    assert_eq!(pool_type_for("MySQL"), Some(String::from("sqlx::MySqlPool")));
    assert_eq!(pool_type_for("sqlite"), None);
    assert_eq!(pool_type_for(""), None);
}

#[test]
fn pool_prefix_three_way_choice() {
    assert_eq!(pool_prefix("sqlite"), "Sqlite");
    assert_eq!(pool_prefix("mysql"), "MySql");
    assert_eq!(pool_prefix("postgres"), "Pg");
    assert_eq!(pool_prefix("anything"), "Pg");
}

#[test]
fn alias_collects_capitals() {
    assert_eq!(get_alias_from_model(&String::from("TodoItem")), "TI");
    assert_eq!(get_alias_from_model(&String::from("user")), "");
}

#[test]
fn text_utilities_behave() {
    assert!(str_eq("abc", "abc"));
    assert!(!str_eq("abc", "abd"));
    assert!(!str_eq("abc", "ab"));
    assert!(ends_with("AuthMiddleware", "Middleware"));
    assert!(!ends_with("Auth", "Middleware"));
    assert_eq!(strip_suffix("AuthMiddleware", "Middleware"), "Auth");
    assert_eq!(strip_suffix("Auth", "Middleware"), "Auth");
    assert!(contains_char("/todo/{id}", '{'));
    assert!(!contains_char("/todo", '{'));
    let parts = vec![String::from("a"), String::from("b"), String::from("c")];
    assert_eq!(join_strs(&parts, ", "), "a, b, c");
    let empty: Vec<String> = Vec::new();
    assert_eq!(join_strs(&empty, ", "), "");
}
