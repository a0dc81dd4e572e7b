//! The generated service bootstrap (`main.rs` of the scaffolded project).

use vstd::prelude::*;
use vstd::string::StringExecFns;
use crate::domain::config::Config;
use crate::domain::config::ModelV;
use crate::naming::ascii_lower;
use crate::naming::lower_spec;
use crate::naming::service_field;
use crate::naming::service_field_spec;
use crate::text::join_spec;
use crate::text::join_strs;

verus! {

/// The repository-initialization line emitted for one model.
pub open spec fn repo_init_line_spec(m: ModelV) -> Seq<char> {
    "    let "@ + lower_spec(m.name) + "_repo = infrastructure::repositories::Sqlx"@ + m.name
        + "Repository::new(database_connection.clone());\n"@
}

/// The repository-initialization lines of all models, in declaration order.
pub open spec fn repo_inits_spec(ms: Seq<ModelV>) -> Seq<char>
    decreases ms.len(),
{
    if ms.len() == 0 {
        Seq::empty()
    } else {
        repo_inits_spec(ms.drop_last()) + repo_init_line_spec(ms.last())
    }
}

/// The service-initialization line emitted for one model.
pub open spec fn service_init_line_spec(m: ModelV) -> Seq<char> {
    "    let "@ + service_field_spec(m.name) + " = application::services::"@ + m.name
        + "Service::new("@ + lower_spec(m.name) + "_repo);\n"@
}

/// The service-initialization lines of all models, in declaration order.
pub open spec fn service_inits_spec(ms: Seq<ModelV>) -> Seq<char>
    decreases ms.len(),
{
    if ms.len() == 0 {
        Seq::empty()
    } else {
        service_inits_spec(ms.drop_last()) + service_init_line_spec(ms.last())
    }
}

/// The service arguments handed to the HTTP server constructor.
pub open spec fn service_params_spec(ms: Seq<ModelV>) -> Seq<char> {
    join_spec(ms.map_values(|m: ModelV| service_field_spec(m.name)), ", "@)
}

/// The text of the generated bootstrap: module declarations, the async entry
/// point connecting the database, one repository and one service
/// initialization per model in declaration order, and the HTTP server start.
pub open spec fn main_content_spec(c: crate::domain::config::ConfigV) -> Seq<char> {
    "\nmod database_connection;\nmod adapters;\nmod domain;\nmod application;\nmod infrastructure;\n\n#[tokio::main]\nasync fn main() { \n    tracing_subscriber::fmt::init();\n    let database_connection = database_connection::connect_to_database().await.expect(\"Could not connect to database\");\n    let config = adapters::http::http::HttpServerConfig { port: \"3000\".into() };\n"@
        + repo_inits_spec(c.models) + service_inits_spec(c.models)
        + "\n    let http_server = adapters::http::http::HttpServer::new("@ + service_params_spec(
        c.models,
    )
        + ", config).await.expect(\"Failed to create HTTP server\");\n    http_server.run().await.expect(\"Failed to run HTTP server\");\n}\n        "@
}

/// Renders the bootstrap file for a configuration.
#[verifier::loop_isolation(false)]
pub fn main_content(config: &Config) -> (r: String)
    ensures
        r@ == main_content_spec(config.deep_view()),
{
    let ghost ms = config.deep_view().models;
    let mut repo_inits = String::new();
    let mut service_inits = String::new();
    let mut params: Vec<String> = Vec::new();
    let mut i: usize = 0;
    while i < config.models.len()
        invariant
            i <= config.models@.len(),
            repo_inits@ == repo_inits_spec(ms.take(i as int)),
            service_inits@ == service_inits_spec(ms.take(i as int)),
            params.deep_view() =~= ms.take(i as int).map_values(
                |m: ModelV| service_field_spec(m.name),
            ),
        decreases config.models@.len() - i,
    {
        proof {
            assert(ms[i as int] == config.models@[i as int].deep_view());
        }
        let name = config.models[i].name.as_str();
        let lower = ascii_lower(name);

        let mut repo_line = String::new();
        repo_line.append("    let ");
        repo_line.append(lower.as_str());
        repo_line.append("_repo = infrastructure::repositories::Sqlx");
        repo_line.append(name);
        repo_line.append("Repository::new(database_connection.clone());\n");
        proof {
            assert(repo_line@ =~= repo_init_line_spec(ms[i as int]));
        }
        repo_inits.append(repo_line.as_str());

        let mut service_line = String::new();
        service_line.append("    let ");
        let field = service_field(name);
        service_line.append(field.as_str());
        service_line.append(" = application::services::");
        service_line.append(name);
        service_line.append("Service::new(");
        service_line.append(lower.as_str());
        service_line.append("_repo);\n");
        proof {
            assert(service_line@ =~= service_init_line_spec(ms[i as int]));
        }
        service_inits.append(service_line.as_str());

        let ghost before = params.deep_view();
        params.push(field);
        proof {
            assert(ms.take(i + 1).drop_last() =~= ms.take(i as int));
            assert(ms.take(i + 1).last() == ms[i as int]);
            assert(repo_inits@ =~= repo_inits_spec(ms.take(i + 1)));
            assert(service_inits@ =~= service_inits_spec(ms.take(i + 1)));
            assert(params.deep_view() =~= before.push(service_field_spec(ms[i as int].name)));
            assert(ms.take(i + 1).map_values(|m: ModelV| service_field_spec(m.name)) =~= before.push(
                service_field_spec(ms[i as int].name),
            ));
        }
        i = i + 1;
    }
    proof {
        assert(ms.take(config.models@.len() as int) =~= ms);
    }
    let service_params = join_strs(&params, ", ");
    let mut r = String::new();
    r.append(
        "\nmod database_connection;\nmod adapters;\nmod domain;\nmod application;\nmod infrastructure;\n\n#[tokio::main]\nasync fn main() { \n    tracing_subscriber::fmt::init();\n    let database_connection = database_connection::connect_to_database().await.expect(\"Could not connect to database\");\n    let config = adapters::http::http::HttpServerConfig { port: \"3000\".into() };\n",
    );
    r.append(repo_inits.as_str());
    r.append(service_inits.as_str());
    r.append("\n    let http_server = adapters::http::http::HttpServer::new(");
    r.append(service_params.as_str());
    r.append(
        ", config).await.expect(\"Failed to create HTTP server\");\n    http_server.run().await.expect(\"Failed to run HTTP server\");\n}\n        ",
    );
    proof {
        assert(r@ =~= main_content_spec(config.deep_view()));
    }
    r
}

} // verus!
