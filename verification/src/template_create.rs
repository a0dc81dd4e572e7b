//! Starter-project templates: a minimal build manifest, entry point and
//! configuration document for a freshly scaffolded service.

use vstd::prelude::*;
use vstd::string::StringExecFns;
use crate::casing::to_upper_camel;
use crate::casing::upper_camel_of;
use crate::naming::ascii_lower;
use crate::naming::lower_spec;
use crate::naming::pool_prefix;
use crate::naming::pool_prefix_spec;

verus! {

/// The text of the starter build manifest.
pub open spec fn cargo_toml_content_spec(project_name: Seq<char>, database_type: Seq<char>) -> Seq<
    char,
> {
    "\n    [package]\n    name = \""@ + project_name
        + "\"\n    version = \"0.1.0\"\n    edition = \"2021\"\n    \n    [dependencies]\n    axum = \"0.7.5\"\n    tokio = { version = \"1\", features = [\"full\"] }\n    sqlx = { version = \"0.7.4\", features = [\"runtime-tokio-rustls\", \""@
        + database_type
        + "\"] }\n    serde = { version = \"1.0\", features = [\"derive\"] }\n    toml = \"0.8.14\"\n    env_logger = \"0.11.3\"\n    log = \"0.4\"\n\n        "@
}

/// Renders the starter build manifest.
pub fn cargo_toml_content(project_name: &str, database_type: &str) -> (r: String)
    ensures
        r@ == cargo_toml_content_spec(project_name@, database_type@),
{
    let mut r = String::new();
    r.append("\n    [package]\n    name = \"");
    r.append(project_name);
    r.append(
        "\"\n    version = \"0.1.0\"\n    edition = \"2021\"\n    \n    [dependencies]\n    axum = \"0.7.5\"\n    tokio = { version = \"1\", features = [\"full\"] }\n    sqlx = { version = \"0.7.4\", features = [\"runtime-tokio-rustls\", \"",
    );
    r.append(database_type);
    r.append(
        "\"] }\n    serde = { version = \"1.0\", features = [\"derive\"] }\n    toml = \"0.8.14\"\n    env_logger = \"0.11.3\"\n    log = \"0.4\"\n\n        ",
    );
    proof {
        assert(r@ =~= cargo_toml_content_spec(project_name@, database_type@));
    }
    r
}

/// The text of the starter entry point, for a normalized dialect's pool
/// type.
pub open spec fn main_rs_content_spec(database_type: Seq<char>) -> Seq<char> {
    let pool = pool_prefix_spec(lower_spec(upper_camel_of(database_type)));
    "\n    use axum::{routing::get, Router};\n    use sqlx::"@ + pool
        + ";\n    use sqlx::Pool;\n    use std::net::SocketAddr;\n    use log::info;\n    use env_logger;\n    use serde::Deserialize;\n    use std::fs;\n    use sqlx::pool::PoolOptions;\n\n    \n    mod routes;\n    use routes::*;\n\n    mod models;\n    use models::*;\n    \n    #[derive(Deserialize)]\n    struct Config {\n        database_url: String,\n    }\n    \n    async fn read_config() -> Config {\n        let config_contents = fs::read_to_string(\"config/config.toml\")\n            .expect(\"Failed to read config file\");\n        toml::from_str(&config_contents).expect(\"Failed to parse config file\")\n    }\n    \n    #[tokio::main]\n    async fn main() {\n        env_logger::init();\n    \n        let config = read_config().await;\n    \n        // connect to the database\n        let pool: Pool<"@
        + pool
        + "> = PoolOptions::new()\n            .max_connections(5)\n            .connect(&config.database_url)\n            .await\n            .expect(\"Could not connect to the database\");\n    \n        info!(\"Connected to the database\");\n    \n        // build our application with a single route\n        let app = Router::new().route(\"/\", get(|| async { \"Hello, World!\" }));\n    \n        // run it with hyper on localhost:3000\n        let listener = tokio::net::TcpListener::bind(\"0.0.0.0:3000\").await.unwrap();\n        axum::serve(listener, app).await.unwrap();\n    }\n        "@
}

/// Renders the starter entry point for a storage dialect tag.
pub fn main_rs_content(database_type: &str) -> (r: String)
    ensures
        r@ == main_rs_content_spec(database_type@),
{
    let camel = to_upper_camel(database_type);
    let normalized = ascii_lower(camel.as_str());
    let pool = pool_prefix(normalized.as_str());
    let mut r = String::new();
    r.append("\n    use axum::{routing::get, Router};\n    use sqlx::");
    r.append(pool.as_str());
    r.append(
        ";\n    use sqlx::Pool;\n    use std::net::SocketAddr;\n    use log::info;\n    use env_logger;\n    use serde::Deserialize;\n    use std::fs;\n    use sqlx::pool::PoolOptions;\n\n    \n    mod routes;\n    use routes::*;\n\n    mod models;\n    use models::*;\n    \n    #[derive(Deserialize)]\n    struct Config {\n        database_url: String,\n    }\n    \n    async fn read_config() -> Config {\n        let config_contents = fs::read_to_string(\"config/config.toml\")\n            .expect(\"Failed to read config file\");\n        toml::from_str(&config_contents).expect(\"Failed to parse config file\")\n    }\n    \n    #[tokio::main]\n    async fn main() {\n        env_logger::init();\n    \n        let config = read_config().await;\n    \n        // connect to the database\n        let pool: Pool<",
    );
    r.append(pool.as_str());
    r.append(
        "> = PoolOptions::new()\n            .max_connections(5)\n            .connect(&config.database_url)\n            .await\n            .expect(\"Could not connect to the database\");\n    \n        info!(\"Connected to the database\");\n    \n        // build our application with a single route\n        let app = Router::new().route(\"/\", get(|| async { \"Hello, World!\" }));\n    \n        // run it with hyper on localhost:3000\n        let listener = tokio::net::TcpListener::bind(\"0.0.0.0:3000\").await.unwrap();\n        axum::serve(listener, app).await.unwrap();\n    }\n        ",
    );
    proof {
        assert(r@ =~= main_rs_content_spec(database_type@));
    }
    r
}

/// The text of the starter configuration document.
pub open spec fn config_toml_content_spec(database_url: Seq<char>) -> Seq<char> {
    "\ndatabase_url = \""@ + database_url + "\"\n        "@
}

/// Renders the starter configuration document.
pub fn config_toml_content(database_url: &str) -> (r: String)
    ensures
        r@ == config_toml_content_spec(database_url@),
{
    let mut r = String::new();
    r.append("\ndatabase_url = \"");
    r.append(database_url);
    r.append("\"\n        ");
    proof {
        assert(r@ =~= config_toml_content_spec(database_url@));
    }
    r
}

} // verus!
