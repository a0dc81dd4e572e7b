//! The flat endpoint shape and its generated route file.

use vstd::prelude::*;
use vstd::string::StringExecFns;
use crate::application::project_service::GeneratedFile;
use crate::application::project_service::GeneratedFileV;
use crate::casing::to_upper_camel;
use crate::casing::upper_camel_of;
use crate::models::Field;
use crate::models::FieldV;
use crate::naming::ascii_lower;
use crate::naming::lower_spec;
use crate::naming::pool_prefix;
use crate::naming::pool_prefix_spec;
use crate::naming::push_char;
use crate::text::str_eq;
use crate::text::strip_suffix;
use crate::text::strip_suffix_spec;

verus! {

/// One HTTP endpoint in the flat shape.
#[derive(Clone, Debug)]
pub struct Endpoint {
    pub method: String,
    pub path: String,
    pub middlewares: Option<Vec<String>>,
    pub path_params: Option<Vec<Field>>,
    pub body_params: Option<Vec<Field>>,
    pub query_params: Option<Vec<Field>>,
}

/// The mathematical value of a flat `Endpoint`.
pub ghost struct EndpointV {
    pub method: Seq<char>,
    pub path: Seq<char>,
    pub middlewares: Option<Seq<Seq<char>>>,
    pub path_params: Option<Seq<FieldV>>,
    pub body_params: Option<Seq<FieldV>>,
    pub query_params: Option<Seq<FieldV>>,
}

impl DeepView for Endpoint {
    type V = EndpointV;

    open spec fn deep_view(&self) -> EndpointV {
        EndpointV {
            method: self.method@,
            path: self.path@,
            middlewares: self.middlewares.deep_view(),
            path_params: self.path_params.deep_view(),
            body_params: self.body_params.deep_view(),
            query_params: self.query_params.deep_view(),
        }
    }
}

/// The characters one path character contributes to a route-file name:
/// separators become underscores, and colons and braces become underscores or
/// vanish.
pub open spec fn route_file_seg_spec(c: char) -> Seq<char> {
    if c == '/' {
        seq!['_']
    } else if c == ':' {
        Seq::empty()
    } else if c == '{' {
        seq!['_']
    } else if c == '}' {
        seq!['_']
    } else {
        seq![c]
    }
}

/// The route-file rendering of an already lower-cased path.
pub open spec fn route_file_path_spec(s: Seq<char>) -> Seq<char>
    decreases s.len(),
{
    if s.len() == 0 {
        Seq::empty()
    } else {
        route_file_path_spec(s.drop_last()) + route_file_seg_spec(s.last())
    }
}

/// The identifier part of a route-file name: the lower-cased path, rendered.
pub open spec fn route_file_stem_spec(path: Seq<char>) -> Seq<char> {
    route_file_path_spec(lower_spec(path))
}

/// Renders a URL path as the identifier part of a route-file name.
#[verifier::loop_isolation(false)]
fn route_file_stem(path: &str) -> (r: String)
    ensures
        r@ == route_file_stem_spec(path@),
{
    let lowered = ascii_lower(path);
    let s = lowered.as_str();
    let ghost sv = s@;
    let n = s.unicode_len();
    let mut r = String::new();
    let mut i: usize = 0;
    while i < n
        invariant
            n == sv.len(),
            sv == s@,
            i <= n,
            r@ == route_file_path_spec(sv.take(i as int)),
        decreases n - i,
    {
        let c = s.get_char(i);
        if c == '/' {
            push_char(&mut r, '_');
        } else if c == ':' {
        } else if c == '{' {
            push_char(&mut r, '_');
        } else if c == '}' {
            push_char(&mut r, '_');
        } else {
            push_char(&mut r, c);
        }
        proof {
            assert(sv.take(i + 1).drop_last() =~= sv.take(i as int));
            assert(sv.take(i + 1).last() == sv[i as int]);
            assert(r@ =~= route_file_path_spec(sv.take(i + 1)));
        }
        i = i + 1;
    }
    proof {
        assert(sv.take(n as int) =~= sv);
    }
    r
}

/// The extractor entry of one middleware reference: the UpperCamel base with
/// a trailing `Middleware` stripped, spliced three times.
pub open spec fn middleware_extractor_spec(name: Seq<char>) -> Seq<char> {
    let base = strip_suffix_spec(upper_camel_of(name), "Middleware"@);
    base + "Middleware("@ + lower_spec(base) + "): "@ + base + "Middleware, "@
}

/// The extractor entries of an endpoint's middleware references, in order.
pub open spec fn middleware_extractors_spec(names: Seq<Seq<char>>) -> Seq<char>
    decreases names.len(),
{
    if names.len() == 0 {
        Seq::empty()
    } else {
        middleware_extractors_spec(names.drop_last()) + middleware_extractor_spec(names.last())
    }
}

/// One parameter-struct field line of a route file.
pub open spec fn param_field_line_spec(f: FieldV) -> Seq<char> {
    "    pub "@ + f.name + ": "@ + f.field_type + ",\n"@
}

/// The field lines of a parameter struct, in declaration order.
pub open spec fn param_field_lines_spec(fs: Seq<FieldV>) -> Seq<char>
    decreases fs.len(),
{
    if fs.len() == 0 {
        Seq::empty()
    } else {
        param_field_lines_spec(fs.drop_last()) + param_field_line_spec(fs.last())
    }
}

/// The parameter-struct block of one optional parameter group: the serde
/// import, the struct, and its fields.
pub open spec fn param_struct_spec(
    intro: Seq<char>,
    model_name: Seq<char>,
    suffix: Seq<char>,
    fs: Seq<FieldV>,
) -> Seq<char> {
    intro + "#[derive(Deserialize)]\n"@ + "pub struct "@ + model_name + suffix + " {\n"@
        + param_field_lines_spec(fs) + "}\n"@
}

/// The import-and-struct blocks an endpoint's parameter groups add to its
/// route file, with the extractor list they contribute.
pub open spec fn endpoint_params_spec(e: EndpointV, model_name: Seq<char>) -> (Seq<char>, Seq<
    char,
>) {
    let mw_extractors = (match e.middlewares {
        Some(ns) => middleware_extractors_spec(ns),
        None => Seq::empty(),
    });
    let body_part = (match e.body_params {
        Some(fs) => param_struct_spec(
            "use serde::{Deserialize, Serialize};\n\n            "@,
            model_name,
            "Body"@,
            fs,
        ),
        None => Seq::empty(),
    });
    let body_extract = (match e.body_params {
        Some(fs) => "Json(body): Json<"@ + model_name + "Body>, "@,
        None => Seq::empty(),
    });
    let path_part = (match e.path_params {
        Some(fs) => param_struct_spec(
            "use serde::{Deserialize, Serialize};\n\n            "@,
            model_name,
            "PathParams"@,
            fs,
        ),
        None => Seq::empty(),
    });
    let path_extract = (match e.path_params {
        Some(fs) => "Path(path_params): Path<"@ + model_name + "PathParams>, "@,
        None => Seq::empty(),
    });
    let query_part = (match e.query_params {
        Some(fs) => param_struct_spec(
            "\n        use serde::{Deserialize, Serialize};\n\n            "@,
            model_name,
            "PathParams"@,
            fs,
        ),
        None => Seq::empty(),
    });
    let query_extract = (match e.query_params {
        Some(fs) => "Query(query_params): Query<"@ + model_name + "QueryParams>, "@,
        None => Seq::empty(),
    });
    (
        body_part + path_part + query_part,
        mw_extractors + body_extract + path_extract + query_extract,
    )
}

/// The fixed imports at the head of a route file, plus the model import and
/// the middleware import when references are declared.
pub open spec fn endpoint_header_spec(e: EndpointV, model_name: Seq<char>) -> Seq<char> {
    "use axum::{ extract::{State, Path, Query }, http::StatusCode};\n"@
        + "use axum::Json;\n        use sqlx::*;\n"@ + "use axum::response::IntoResponse;\n"@
        + "use crate::models::"@ + lower_spec(model_name) + "::*;\n\n"@ + (match e.middlewares {
        Some(_) => "use crate::middlewares::*;\n"@,
        None => Seq::empty(),
    })
}

/// The example fetch-all handler of a `GET` route file.
pub open spec fn example_handler_spec(
    e: EndpointV,
    d: Seq<char>,
    model_name: Seq<char>,
    extractors: Seq<char>,
) -> Seq<char> {
    "pub async fn get_all"@ + route_file_stem_spec(e.path) + "(State(db): State<"@
        + pool_prefix_spec(lower_spec(upper_camel_of(d))) + "Pool>, "@ + extractors
        + ") -> impl IntoResponse {\n"@ + "\n            let query = "@ + model_name
        + "::select().build();\n\n            let db_response : Result<Vec<"@ + model_name
        + ">, Error> = sqlx::query_as(&query)\n                            .fetch_all(&db)\n                            .await;\n\n            match db_response {\n                Ok(data) => (StatusCode::OK, Json(data)).into_response(),\n                Err(e) => (StatusCode::BAD_REQUEST, Json(e.to_string())).into_response(),\n            }\n        }\n"@
}

/// The placeholder handler of a non-example route file.
pub open spec fn stub_handler_spec(
    e: EndpointV,
    d: Seq<char>,
    extractors: Seq<char>,
) -> Seq<char> {
    lower_spec(e.method) + route_file_stem_spec(e.path) + "(State(db): State<"@ + pool_prefix_spec(
        lower_spec(upper_camel_of(d)),
    ) + "Pool>, "@ + extractors + ") -> impl IntoResponse {\n"@
        + "    // TODO: Implement endpoint logic\n"@ + "}\n"@
}

/// The directory a route file lands in.
pub open spec fn endpoint_dir_spec(p: Seq<char>, example: bool) -> Seq<char> {
    if example {
        "./"@ + p + "/src/routes/example"@
    } else {
        "./"@ + p + "/src/routes"@
    }
}

/// The path of a route file: the lower-cased method followed by the rendered
/// path.
pub open spec fn endpoint_path_spec(p: Seq<char>, e: EndpointV, example: bool) -> Seq<char> {
    endpoint_dir_spec(p, example) + "/"@ + lower_spec(e.method) + route_file_stem_spec(e.path)
        + ".rs"@
}

/// The whole text of a route file.
pub open spec fn endpoint_content_spec(
    e: EndpointV,
    d: Seq<char>,
    model_name: Seq<char>,
    example: bool,
) -> Seq<char> {
    let parts = endpoint_params_spec(e, model_name);
    endpoint_header_spec(e, model_name) + parts.0 + (if lower_spec(e.method) == "get"@ && example {
        example_handler_spec(e, d, model_name, parts.1)
    } else {
        Seq::empty()
    }) + (if !example {
        "pub async fn "@ + stub_handler_spec(e, d, parts.1)
    } else {
        Seq::empty()
    })
}

/// Appends one parameter-struct block to a route file.
#[verifier::loop_isolation(false)]
fn param_struct_block(c: &mut String, intro: &str, model_name: &str, suffix: &str, fields: &Vec<
    Field,
>)
    ensures
        final(c)@ == old(c)@ + param_struct_spec(
            intro@,
            model_name@,
            suffix@,
            fields.deep_view(),
        ),
{
    let ghost base = c@;
    c.append(intro);
    c.append("#[derive(Deserialize)]\n");
    c.append("pub struct ");
    c.append(model_name);
    c.append(suffix);
    c.append(" {\n");
    let ghost fs = fields.deep_view();
    let ghost prefix = c@;
    let mut i: usize = 0;
    while i < fields.len()
        invariant
            i <= fields@.len(),
            c@ == prefix + param_field_lines_spec(fs.take(i as int)),
        decreases fields@.len() - i,
    {
        proof {
            assert(fs[i as int] == fields@[i as int].deep_view());
        }
        c.append("    pub ");
        c.append(fields[i].name.as_str());
        c.append(": ");
        c.append(fields[i].field_type.as_str());
        c.append(",\n");
        proof {
            assert(fs.take(i + 1).drop_last() =~= fs.take(i as int));
            assert(fs.take(i + 1).last() == fs[i as int]);
            assert(c@ =~= prefix + param_field_lines_spec(fs.take(i + 1)));
        }
        i = i + 1;
    }
    proof {
        assert(fs.take(fields@.len() as int) =~= fs);
    }
    c.append("}\n");
    proof {
        assert(c@ =~= base + param_struct_spec(intro@, model_name@, suffix@, fields.deep_view()));
    }
}

/// Renders the imports, parameter structs and extractor list of a route
/// file.
#[verifier::loop_isolation(false)]
#[verifier::rlimit(100)]
fn endpoint_prefix(endpoint: &Endpoint, model_name: &str) -> (r: (String, String))
    ensures
        r.0@ == endpoint_header_spec(endpoint.deep_view(), model_name@) + endpoint_params_spec(
            endpoint.deep_view(),
            model_name@,
        ).0,
        r.1@ == endpoint_params_spec(endpoint.deep_view(), model_name@).1,
{
    let ghost ev = endpoint.deep_view();
    let model_lower = ascii_lower(model_name);
    let mut c = String::new();
    c.append("use axum::{ extract::{State, Path, Query }, http::StatusCode};\n");
    c.append("use axum::Json;\n        use sqlx::*;\n");
    c.append("use axum::response::IntoResponse;\n");
    c.append("use crate::models::");
    c.append(model_lower.as_str());
    c.append("::*;\n\n");

    let mut extraction = String::new();
    match &endpoint.middlewares {
        None => {},
        Some(names) => {
            c.append("use crate::middlewares::*;\n");
            let ghost ns = names.deep_view();
            let mut k: usize = 0;
            while k < names.len()
                invariant
                    k <= names@.len(),
                    extraction@ == middleware_extractors_spec(ns.take(k as int)),
                decreases names@.len() - k,
            {
                proof {
                    assert(ns[k as int] == names@[k as int]@);
                }
                let camel = to_upper_camel(names[k].as_str());
                let base = strip_suffix(camel.as_str(), "Middleware");
                let base_lower = ascii_lower(base.as_str());
                extraction.append(base.as_str());
                extraction.append("Middleware(");
                extraction.append(base_lower.as_str());
                extraction.append("): ");
                extraction.append(base.as_str());
                extraction.append("Middleware, ");
                proof {
                    assert(ns.take(k + 1).drop_last() =~= ns.take(k as int));
                    assert(ns.take(k + 1).last() == ns[k as int]);
                    assert(extraction@ =~= middleware_extractors_spec(ns.take(k + 1)));
                }
                k = k + 1;
            }
            proof {
                assert(ns.take(names@.len() as int) =~= ns);
            }
        },
    }
    proof {
        assert(c@ =~= endpoint_header_spec(ev, model_name@));
    }

    match &endpoint.body_params {
        None => {},
        Some(fields) => {
            param_struct_block(
                &mut c,
                "use serde::{Deserialize, Serialize};\n\n            ",
                model_name,
                "Body",
                fields,
            );
            extraction.append("Json(body): Json<");
            extraction.append(model_name);
            extraction.append("Body>, ");
        },
    }
    match &endpoint.path_params {
        None => {},
        Some(fields) => {
            param_struct_block(
                &mut c,
                "use serde::{Deserialize, Serialize};\n\n            ",
                model_name,
                "PathParams",
                fields,
            );
            extraction.append("Path(path_params): Path<");
            extraction.append(model_name);
            extraction.append("PathParams>, ");
        },
    }
    match &endpoint.query_params {
        None => {},
        Some(fields) => {
            param_struct_block(
                &mut c,
                "\n        use serde::{Deserialize, Serialize};\n\n            ",
                model_name,
                "PathParams",
                fields,
            );
            extraction.append("Query(query_params): Query<");
            extraction.append(model_name);
            extraction.append("QueryParams>, ");
        },
    }
    proof {
        assert(c@ =~= endpoint_header_spec(ev, model_name@) + endpoint_params_spec(
            ev,
            model_name@,
        ).0);
        assert(extraction@ =~= endpoint_params_spec(ev, model_name@).1);
    }
    (c, extraction)
}

/// Renders the route file of one endpoint for one model, or nothing when an
/// example file is asked of an endpoint that is not a `GET`. The result names
/// the directory the file lands in.
#[verifier::loop_isolation(false)]
#[verifier::rlimit(100)]
pub fn generate_endpoint(
    project_name: &str,
    endpoint: &Endpoint,
    database_type: &str,
    model_name: &str,
    example: bool,
) -> (r: Option<(String, GeneratedFile)>)
    ensures
        r is Some <==> (lower_spec(endpoint.deep_view().method) == "get"@ || !example),
        (r matches Some(t) ==> t.0@ == endpoint_dir_spec(project_name@, example)
            && t.1.deep_view() == (GeneratedFileV {
            path: endpoint_path_spec(project_name@, endpoint.deep_view(), example),
            content: endpoint_content_spec(
                endpoint.deep_view(),
                database_type@,
                model_name@,
                example,
            ),
        })),
{
    let ghost ev = endpoint.deep_view();
    let method_lower = ascii_lower(endpoint.method.as_str());
    if !str_eq(method_lower.as_str(), "get") && example {
        return None;
    }
    let mut dir = String::new();
    dir.append("./");
    dir.append(project_name);
    if example {
        dir.append("/src/routes/example");
    } else {
        dir.append("/src/routes");
    }
    proof {
        assert(dir@ =~= endpoint_dir_spec(project_name@, example));
    }
    let camel_db = to_upper_camel(database_type);
    let normalized_db = ascii_lower(camel_db.as_str());
    let db_prefix = pool_prefix(normalized_db.as_str());
    let stem = route_file_stem(endpoint.path.as_str());
    let mut path = String::new();
    path.append(dir.as_str());
    path.append("/");
    path.append(method_lower.as_str());
    path.append(stem.as_str());
    path.append(".rs");
    proof {
        assert(path@ =~= endpoint_path_spec(project_name@, ev, example));
    }

    let (prefix, extraction) = endpoint_prefix(endpoint, model_name);
    let mut c = prefix;

    if str_eq(method_lower.as_str(), "get") && example {
        c.append("pub async fn get_all");
        c.append(stem.as_str());
        c.append("(State(db): State<");
        c.append(db_prefix.as_str());
        c.append("Pool>, ");
        c.append(extraction.as_str());
        c.append(") -> impl IntoResponse {\n");
        c.append("\n            let query = ");
        c.append(model_name);
        c.append(
            "::select().build();\n\n            let db_response : Result<Vec<",
        );
        c.append(model_name);
        c.append(
            ">, Error> = sqlx::query_as(&query)\n                            .fetch_all(&db)\n                            .await;\n\n            match db_response {\n                Ok(data) => (StatusCode::OK, Json(data)).into_response(),\n                Err(e) => (StatusCode::BAD_REQUEST, Json(e.to_string())).into_response(),\n            }\n        }\n",
        );
    }
    if !example {
        c.append("pub async fn ");
        c.append(method_lower.as_str());
        c.append(stem.as_str());
        c.append("(State(db): State<");
        c.append(db_prefix.as_str());
        c.append("Pool>, ");
        c.append(extraction.as_str());
        c.append(") -> impl IntoResponse {\n");
        c.append("    // TODO: Implement endpoint logic\n");
        c.append("}\n");
    }
    proof {
        assert(c@ =~= endpoint_content_spec(ev, database_type@, model_name@, example));
    }
    Some((dir, GeneratedFile { path, content: c }))
}

} // verus!
