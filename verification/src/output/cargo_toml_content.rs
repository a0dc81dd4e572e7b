//! The generated build manifest.

use vstd::prelude::*;
use vstd::string::StringExecFns;
use crate::domain::config::Framework;
use crate::text::str_owned;

verus! {

/// The dependency line declaring the chosen web framework.
pub open spec fn framework_dep_spec(framework: Framework) -> Seq<char> {
    match framework {
        Framework::Axum => "axum = \"0.8.1\"\n"@,
        Framework::ActixWeb => "actix-web = \"4\"\n"@,
    }
}

/// The tokio feature set the chosen web framework needs.
pub open spec fn tokio_features_spec(framework: Framework) -> Seq<char> {
    match framework {
        Framework::Axum => "rt-multi-thread"@,
        Framework::ActixWeb => "full"@,
    }
}

/// The text of the generated build manifest: package block plus the
/// dependency set, with the tokio features, the sqlx driver feature and the
/// web-framework line chosen by the configuration.
pub open spec fn cargo_toml_content_spec(
    project_name: Seq<char>,
    database_type: Seq<char>,
    framework: Framework,
) -> Seq<char> {
    "\n[package]\nname = \""@ + project_name
        + "\"\nversion = \"0.1.0\"\nedition = \"2021\"\n\n[dependencies]\ndotenvy = \"0.15.7\"\ntokio = { version = \"1.38.0\", features = [\""@
        + tokio_features_spec(framework)
        + "\"] }\nsqlx = { version = \"0.8.3\", features = [\"runtime-tokio-rustls\", \""@
        + database_type
        + "\"] }\nserde = { version = \"1.0\", features = [\"derive\"] }\nprkorm = \"0.5.4\"\ntower-http = { version = \"0.5.2\", features = [\"trace\", \"cors\"] }\ntower-layer = \"0.3.2\"\ntracing = \"0.1.40\"\ntracing-subscriber = \"0.3\"\nanyhow = \"1.0.97\"\nthiserror = \"2.0.12\"\n"@
        + framework_dep_spec(framework) + "\n\n        "@
}

/// The dependency line declaring the chosen web framework.
fn generate_framework(framework: &Framework) -> (r: String)
    ensures
        r@ == framework_dep_spec(*framework),
{
    match framework {
        Framework::Axum => str_owned("axum = \"0.8.1\"\n"),
        Framework::ActixWeb => str_owned("actix-web = \"4\"\n"),
    }
}

/// The tokio feature set the chosen web framework needs.
fn generate_tokio_features(framework: &Framework) -> (r: String)
    ensures
        r@ == tokio_features_spec(*framework),
{
    match framework {
        Framework::Axum => str_owned("rt-multi-thread"),
        Framework::ActixWeb => str_owned("full"),
    }
}

/// Renders the build manifest for a project name, storage dialect tag and
/// framework choice.
pub fn cargo_toml_content(
    project_name: &str,
    database_type: &str,
    _authorization: bool,
    framework: &Framework,
) -> (r: String)
    ensures
        r@ == cargo_toml_content_spec(project_name@, database_type@, *framework),
{
    let features = generate_tokio_features(framework);
    let framework_line = generate_framework(framework);
    let mut r = String::new();
    r.append("\n[package]\nname = \"");
    r.append(project_name);
    r.append(
        "\"\nversion = \"0.1.0\"\nedition = \"2021\"\n\n[dependencies]\ndotenvy = \"0.15.7\"\ntokio = { version = \"1.38.0\", features = [\"",
    );
    r.append(features.as_str());
    r.append("\"] }\nsqlx = { version = \"0.8.3\", features = [\"runtime-tokio-rustls\", \"");
    r.append(database_type);
    r.append(
        "\"] }\nserde = { version = \"1.0\", features = [\"derive\"] }\nprkorm = \"0.5.4\"\ntower-http = { version = \"0.5.2\", features = [\"trace\", \"cors\"] }\ntower-layer = \"0.3.2\"\ntracing = \"0.1.40\"\ntracing-subscriber = \"0.3\"\nanyhow = \"1.0.97\"\nthiserror = \"2.0.12\"\n",
    );
    r.append(framework_line.as_str());
    r.append("\n\n        ");
    proof {
        assert(r@ =~= cargo_toml_content_spec(project_name@, database_type@, *framework));
    }
    r
}

} // verus!
