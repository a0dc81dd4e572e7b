//! The header-validating middleware shape and its generated request guard.

use vstd::prelude::*;
use vstd::string::StringExecFns;
use crate::application::project_service::GeneratedFile;
use crate::application::project_service::GeneratedFileV;
use crate::casing::snake_of;
use crate::casing::to_snake;
use crate::casing::to_upper_camel;
use crate::casing::upper_camel_of;
use crate::naming::ascii_lower;
use crate::naming::lower_spec;
use crate::naming::pool_prefix;
use crate::naming::pool_prefix_spec;

verus! {

/// One header-validation rule: a model field matched against a request
/// header.
#[derive(Clone, Debug)]
pub struct ValidaHeader {
    pub model_field: String,
    pub header_key: String,
}

/// The mathematical value of a `ValidaHeader`.
pub ghost struct ValidaHeaderV {
    pub model_field: Seq<char>,
    pub header_key: Seq<char>,
}

impl DeepView for ValidaHeader {
    type V = ValidaHeaderV;

    open spec fn deep_view(&self) -> ValidaHeaderV {
        ValidaHeaderV { model_field: self.model_field@, header_key: self.header_key@ }
    }
}

/// One header-validating middleware block: the guarded model, the model the
/// lookup queries, and the header rules.
#[derive(Clone, Debug)]
pub struct Middleware {
    pub model: String,
    pub select_from_model: String,
    pub validate_header: Vec<ValidaHeader>,
}

/// The mathematical value of a header-validating `Middleware`.
pub ghost struct MiddlewareV {
    pub model: Seq<char>,
    pub select_from_model: Seq<char>,
    pub validate_header: Seq<ValidaHeaderV>,
}

impl DeepView for Middleware {
    type V = MiddlewareV;

    open spec fn deep_view(&self) -> MiddlewareV {
        MiddlewareV {
            model: self.model@,
            select_from_model: self.select_from_model@,
            validate_header: self.validate_header.deep_view(),
        }
    }
}

/// The directory that holds the generated middleware guards.
pub open spec fn middleware_dir_spec(p: Seq<char>) -> Seq<char> {
    "./"@ + p + "/src/middlewares"@
}

/// The path of a generated middleware guard.
pub open spec fn middleware_path_spec(p: Seq<char>, mw: MiddlewareV) -> Seq<char> {
    middleware_dir_spec(p) + "/"@ + lower_spec(snake_of(mw.model)) + "_middleware.rs"@
}

/// The guard code that reads one header and turns a missing header into the
/// fixed internal-error response.
pub open spec fn header_check_spec(h: Seq<char>) -> Seq<char> {
    " let "@ + h + " = _parts.headers.get(\""@ + h + "\");\n\n            let "@ + h + " = match "@
        + h
        + " {\n                Some(value) => value.to_str().unwrap(),\n                None => return Err((StatusCode::INTERNAL_SERVER_ERROR, String::from(\"Missing Header field: "@
        + h + "\"))),\n            };\n\n            "@
}

/// The header checks of all rules, in declared order.
pub open spec fn header_checks_spec(fs: Seq<ValidaHeaderV>) -> Seq<char>
    decreases fs.len(),
{
    if fs.len() == 0 {
        Seq::empty()
    } else {
        header_checks_spec(fs.drop_last()) + header_check_spec(fs.last().header_key)
    }
}

/// One lookup filter: the model field matched against the captured header
/// value.
pub open spec fn where_clause_spec(f: ValidaHeaderV) -> Seq<char> {
    ".where_"@ + f.model_field + "("@ + f.header_key + ")"@
}

/// The lookup filters of all rules, in declared order.
pub open spec fn where_clauses_spec(fs: Seq<ValidaHeaderV>) -> Seq<char>
    decreases fs.len(),
{
    if fs.len() == 0 {
        Seq::empty()
    } else {
        where_clauses_spec(fs.drop_last()) + where_clause_spec(fs.last())
    }
}

/// The text of a generated middleware guard: an extractor that reads the
/// configured headers (a missing header gives the fixed internal-error
/// response), queries the source model with one filter per captured header,
/// and rejects the request when no row matches (also with the internal-error
/// response).
pub open spec fn middleware_content_spec(mw: MiddlewareV, d: Seq<char>) -> Seq<char> {
    let pool = pool_prefix_spec(lower_spec(upper_camel_of(d)));
    "use axum::{\n    extract::{FromRef, FromRequestParts},\n    http::{request::Parts, StatusCode},\n};\n\nuse serde::{Deserialize, Serialize};\n\nuse sqlx::*;\n\nuse crate::models::*;\n\n\n\n#[derive(sqlx::FromRow, Serialize, Deserialize)]\npub struct "@
        + mw.model + "Middleware(pub "@ + mw.model + ");\n\n"@
        + "\n    \nimpl<S> FromRequestParts<S> for "@ + mw.model + "Middleware\nwhere\n    "@
        + pool
        + "Pool: FromRef<S>,\n    S: Send + Sync,\n{\n    type Rejection = (StatusCode, String);\n\n    async fn from_request_parts(_parts: &mut Parts, state: &S) -> Result<Self, Self::Rejection> {\n     "@
        + " let pool = "@ + pool + "Pool::from_ref(state);\n"@ + header_checks_spec(
        mw.validate_header,
    ) + "let query = "@ + mw.select_from_model + "::select()\n"@ + where_clauses_spec(
        mw.validate_header,
    ) + ".build();\n"@ + "let "@ + lower_spec(mw.model)
        + " = sqlx::query_as(&query).fetch_one(&pool).await.map_err(internal_error)?;\n"@ + "Ok("@
        + mw.model + "Middleware("@ + lower_spec(mw.model) + "))}\n\n\n"@ + "}\n\n\n"@
        + "fn internal_error<E>(err: E) -> (StatusCode, String)\nwhere\n    E: std::error::Error,\n{\n    (StatusCode::INTERNAL_SERVER_ERROR, err.to_string())\n}"@
}

/// Renders the middleware guard of one block and names the directory and
/// path it belongs to.
#[verifier::loop_isolation(false)]
#[verifier::rlimit(100)]
pub fn generate_middleware(project_name: &str, database_type: &String, middleware: &Middleware)
    -> (r: (String, GeneratedFile))
    ensures
        r.0@ == middleware_dir_spec(project_name@),
        r.1.deep_view() == (GeneratedFileV {
            path: middleware_path_spec(project_name@, middleware.deep_view()),
            content: middleware_content_spec(middleware.deep_view(), database_type@),
        }),
{
    let ghost mv = middleware.deep_view();
    let camel_db = to_upper_camel(database_type.as_str());
    let normalized_db = ascii_lower(camel_db.as_str());
    let pool = pool_prefix(normalized_db.as_str());

    let mut dir = String::new();
    dir.append("./");
    dir.append(project_name);
    dir.append("/src/middlewares");
    proof {
        assert(dir@ =~= middleware_dir_spec(project_name@));
    }
    let snake = to_snake(middleware.model.as_str());
    let stem = ascii_lower(snake.as_str());
    let mut path = String::new();
    path.append(dir.as_str());
    path.append("/");
    path.append(stem.as_str());
    path.append("_middleware.rs");
    proof {
        assert(path@ =~= middleware_path_spec(project_name@, mv));
    }

    let model_lower = ascii_lower(middleware.model.as_str());
    let mut c = String::new();
    c.append(
        "use axum::{\n    extract::{FromRef, FromRequestParts},\n    http::{request::Parts, StatusCode},\n};\n\nuse serde::{Deserialize, Serialize};\n\nuse sqlx::*;\n\nuse crate::models::*;\n\n\n\n#[derive(sqlx::FromRow, Serialize, Deserialize)]\npub struct ",
    );
    c.append(middleware.model.as_str());
    c.append("Middleware(pub ");
    c.append(middleware.model.as_str());
    c.append(");\n\n");
    c.append("\n    \nimpl<S> FromRequestParts<S> for ");
    c.append(middleware.model.as_str());
    c.append("Middleware\nwhere\n    ");
    c.append(pool.as_str());
    c.append(
        "Pool: FromRef<S>,\n    S: Send + Sync,\n{\n    type Rejection = (StatusCode, String);\n\n    async fn from_request_parts(_parts: &mut Parts, state: &S) -> Result<Self, Self::Rejection> {\n     ",
    );
    c.append(" let pool = ");
    c.append(pool.as_str());
    c.append("Pool::from_ref(state);\n");

    let ghost fs = middleware.validate_header.deep_view();
    let ghost before_checks = c@;
    let mut i: usize = 0;
    while i < middleware.validate_header.len()
        invariant
            i <= middleware.validate_header@.len(),
            c@ == before_checks + header_checks_spec(fs.take(i as int)),
        decreases middleware.validate_header@.len() - i,
    {
        proof {
            assert(fs[i as int] == middleware.validate_header@[i as int].deep_view());
        }
        let h = middleware.validate_header[i].header_key.as_str();
        c.append(" let ");
        c.append(h);
        c.append(" = _parts.headers.get(\"");
        c.append(h);
        c.append("\");\n\n            let ");
        c.append(h);
        c.append(" = match ");
        c.append(h);
        c.append(
            " {\n                Some(value) => value.to_str().unwrap(),\n                None => return Err((StatusCode::INTERNAL_SERVER_ERROR, String::from(\"Missing Header field: ",
        );
        c.append(h);
        c.append("\"))),\n            };\n\n            ");
        proof {
            assert(fs.take(i + 1).drop_last() =~= fs.take(i as int));
            assert(fs.take(i + 1).last() == fs[i as int]);
            assert(c@ =~= before_checks + header_checks_spec(fs.take(i + 1)));
        }
        i = i + 1;
    }
    proof {
        assert(fs.take(middleware.validate_header@.len() as int) =~= fs);
    }

    c.append("let query = ");
    c.append(middleware.select_from_model.as_str());
    c.append("::select()\n");

    let ghost before_wheres = c@;
    let mut i: usize = 0;
    while i < middleware.validate_header.len()
        invariant
            i <= middleware.validate_header@.len(),
            c@ == before_wheres + where_clauses_spec(fs.take(i as int)),
        decreases middleware.validate_header@.len() - i,
    {
        proof {
            assert(fs[i as int] == middleware.validate_header@[i as int].deep_view());
        }
        c.append(".where_");
        c.append(middleware.validate_header[i].model_field.as_str());
        c.append("(");
        c.append(middleware.validate_header[i].header_key.as_str());
        c.append(")");
        proof {
            assert(fs.take(i + 1).drop_last() =~= fs.take(i as int));
            assert(fs.take(i + 1).last() == fs[i as int]);
            assert(c@ =~= before_wheres + where_clauses_spec(fs.take(i + 1)));
        }
        i = i + 1;
    }
    proof {
        assert(fs.take(middleware.validate_header@.len() as int) =~= fs);
    }

    c.append(".build();\n");
    c.append("let ");
    c.append(model_lower.as_str());
    c.append(" = sqlx::query_as(&query).fetch_one(&pool).await.map_err(internal_error)?;\n");
    c.append("Ok(");
    c.append(middleware.model.as_str());
    c.append("Middleware(");
    c.append(model_lower.as_str());
    c.append("))}\n\n\n");
    c.append("}\n\n\n");
    c.append(
        "fn internal_error<E>(err: E) -> (StatusCode, String)\nwhere\n    E: std::error::Error,\n{\n    (StatusCode::INTERNAL_SERVER_ERROR, err.to_string())\n}",
    );
    proof {
        assert(c@ =~= middleware_content_spec(mv, database_type@));
    }
    (dir, GeneratedFile { path, content: c })
}

} // verus!
