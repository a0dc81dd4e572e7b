//! The per-endpoint HTTP handler generator.
//!
//! Each handler's extraction list is assembled positionally (state, then path
//! parameters, then query parameters, then body) and its body dispatches to
//! one of three canned behaviors chosen by the shape of (method, path):
//! fetch-all for `GET` on the bare collection path, create for `POST` on the
//! bare collection path, fetch-by-identifier for `GET` on a path with a
//! parameter placeholder. Any other shape degrades to an explicit
//! not-yet-implemented placeholder.

use vstd::prelude::*;
use vstd::string::StringExecFns;
use crate::domain::config::Endpoint;
use crate::domain::config::EndpointV;
use crate::domain::config::FieldV;
use crate::domain::config::Framework;
use crate::domain::config::Model;
use crate::domain::config::ModelV;
use crate::naming::ascii_lower;
use crate::naming::handler_name;
use crate::naming::handler_name_spec;
use crate::naming::lower_spec;
use crate::naming::push_char;
use crate::naming::service_field;
use crate::naming::service_field_spec;
use crate::text::contains_char;
use crate::text::contains_char_spec;
use crate::text::join_spec;
use crate::text::join_strs;
use crate::text::str_eq;
use crate::text::str_owned;

verus! {

/// One generated parameter-struct field line.
pub open spec fn param_line_spec(f: FieldV) -> Seq<char> {
    "    pub "@ + f.name + ": "@ + f.field_type + ",\n"@
}

/// The field lines of a generated parameter struct, in declaration order.
pub open spec fn param_lines_spec(ps: Seq<FieldV>) -> Seq<char>
    decreases ps.len(),
{
    if ps.len() == 0 {
        Seq::empty()
    } else {
        param_lines_spec(ps.drop_last()) + param_line_spec(ps.last())
    }
}

/// The path-parameter struct emitted ahead of a handler, when the endpoint
/// declares path parameters.
pub open spec fn params_struct_spec(m: ModelV, e: EndpointV) -> Seq<char> {
    match e.path_params {
        None => Seq::empty(),
        Some(ps) => "#[derive(Deserialize)]\npub struct "@ + m.name + "PathParams {\n"@
            + param_lines_spec(ps) + "}\n\n"@,
    }
}

/// The shared-state extractor of a handler, per framework.
pub open spec fn state_extractor_spec(f: Framework) -> Seq<char> {
    match f {
        Framework::Axum => "State(state): State<AppState>"@,
        Framework::ActixWeb => "state: web::Data<AppState>"@,
    }
}

/// The path-parameter extractor of a handler, per framework.
pub open spec fn path_extractor_spec(m: ModelV, f: Framework) -> Seq<char> {
    match f {
        Framework::Axum => "Path(params): Path<"@ + m.name + "PathParams>"@,
        Framework::ActixWeb => "path: web::Path<"@ + m.name + "PathParams>"@,
    }
}

/// The query-parameter extractor of a handler.
pub open spec fn query_extractor_spec(m: ModelV) -> Seq<char> {
    "Query(query): Query<"@ + m.name + "QueryParams>"@
}

/// The body extractor of a handler, per framework.
pub open spec fn body_extractor_spec(m: ModelV, f: Framework) -> Seq<char> {
    match f {
        Framework::Axum => "Json(body): Json<"@ + m.name + ">"@,
        Framework::ActixWeb => "body: web::Json<"@ + m.name + ">"@,
    }
}

/// The ordered extraction list of a handler: state, then path parameters if
/// declared, then query parameters if declared, then the body if declared.
pub open spec fn extractors_spec(m: ModelV, e: EndpointV, f: Framework) -> Seq<Seq<char>> {
    seq![state_extractor_spec(f)] + (match e.path_params {
        Some(_) => seq![path_extractor_spec(m, f)],
        None => Seq::empty(),
    }) + (match e.query_params {
        Some(_) => seq![query_extractor_spec(m)],
        None => Seq::empty(),
    }) + (match e.body_params {
        Some(_) => seq![body_extractor_spec(m, f)],
        None => Seq::empty(),
    })
}

/// The name the generated handlers use for the extracted path parameters.
pub open spec fn params_var_spec(f: Framework) -> Seq<char> {
    match f {
        Framework::Axum => "params"@,
        Framework::ActixWeb => "path"@,
    }
}

/// The JSON response constructor of a framework.
pub open spec fn json_type_spec(f: Framework) -> Seq<char> {
    match f {
        Framework::Axum => "Json"@,
        Framework::ActixWeb => "web::Json"@,
    }
}

/// The bare collection path of a model: a slash followed by the lower-cased
/// model name.
pub open spec fn collection_path_spec(m: ModelV) -> Seq<char> {
    seq!['/'] + lower_spec(m.name)
}

/// The body of a generated handler: fetch-all for `GET` on the collection
/// path, create for `POST` on the collection path, fetch-by-identifier
/// (mapping an empty result to a not-found error) for `GET` on a path with a
/// placeholder, and an explicit placeholder for every other shape.
pub open spec fn handler_body_spec(m: ModelV, e: EndpointV, f: Framework) -> Seq<char> {
    let method = lower_spec(e.method);
    if method == "get"@ && e.path == collection_path_spec(m) {
        "let items = state."@ + service_field_spec(m.name) + ".get_all().await?;\nOk("@
            + json_type_spec(f) + "(items))"@
    } else if method == "post"@ && e.path == collection_path_spec(m) {
        "let item = state."@ + service_field_spec(m.name) + ".create(body).await?;\nOk("@
            + json_type_spec(f) + "(item))"@
    } else if method == "get"@ && contains_char_spec(e.path, '{') {
        "let item = state."@ + service_field_spec(m.name) + ".get_by_id("@ + params_var_spec(f)
            + ".id).await?.ok_or(AppError::NotFound(format!(\"Not found\")))?;\nOk("@
            + json_type_spec(f) + "(item))"@
    } else {
        "// TODO: Implement handler logic\ntodo!()"@
    }
}

/// The return type of a generated handler, per framework.
pub open spec fn return_type_spec(m: ModelV, f: Framework) -> Seq<char> {
    match f {
        Framework::Axum => "Result<Json<"@ + m.name + ">, AppError>"@,
        Framework::ActixWeb => "Result<web::Json<"@ + m.name + ">, AppError>"@,
    }
}

/// The whole handler artifact of one endpoint: the optional path-parameter
/// struct followed by the handler function.
pub open spec fn generate_handler_spec(m: ModelV, e: EndpointV, f: Framework) -> Seq<char> {
    params_struct_spec(m, e) + "pub async fn "@ + handler_name_spec(e.method, e.path) + "("@
        + join_spec(extractors_spec(m, e, f), ", "@) + ") -> "@ + return_type_spec(m, f) + " {\n"@
        + handler_body_spec(m, e, f) + "\n}\n"@
}

/// Renders the handler (and its parameter struct, when one is needed) for
/// one endpoint of a model.
#[verifier::loop_isolation(false)]
pub fn generate_handler(model: &Model, endpoint: &Endpoint, framework: Framework) -> (r: String)
    ensures
        r@ == generate_handler_spec(model.deep_view(), endpoint.deep_view(), framework),
{
    let ghost mv = model.deep_view();
    let ghost ev = endpoint.deep_view();
    let model_name = model.name.as_str();
    let model_lower = ascii_lower(model_name);
    let sfield = service_field(model_name);
    let hname = handler_name(endpoint.method.as_str(), endpoint.path.as_str());
    let method = ascii_lower(endpoint.method.as_str());

    let mut handler_code = String::new();
    let mut extractors: Vec<String> = Vec::new();

    let state_extractor = match framework {
        Framework::Axum => str_owned("State(state): State<AppState>"),
        Framework::ActixWeb => str_owned("state: web::Data<AppState>"),
    };
    extractors.push(state_extractor);

    match &endpoint.path_params {
        None => {},
        Some(path_params) => {
            let ghost ps = path_params.deep_view();
            handler_code.append("#[derive(Deserialize)]\npub struct ");
            handler_code.append(model_name);
            handler_code.append("PathParams {\n");
            let mut i: usize = 0;
            while i < path_params.len()
                invariant
                    ps == path_params.deep_view(),
                    i <= path_params@.len(),
                    handler_code@ == "#[derive(Deserialize)]\npub struct "@ + mv.name
                        + "PathParams {\n"@ + param_lines_spec(ps.take(i as int)),
                decreases path_params@.len() - i,
            {
                proof {
                    assert(ps[i as int] == path_params@[i as int].deep_view());
                }
                handler_code.append("    pub ");
                handler_code.append(path_params[i].name.as_str());
                handler_code.append(": ");
                handler_code.append(path_params[i].field_type.as_str());
                handler_code.append(",\n");
                proof {
                    assert(ps.take(i + 1).drop_last() =~= ps.take(i as int));
                    assert(ps.take(i + 1).last() == ps[i as int]);
                    assert(handler_code@ =~= "#[derive(Deserialize)]\npub struct "@ + mv.name
                        + "PathParams {\n"@ + param_lines_spec(ps.take(i + 1)));
                }
                i = i + 1;
            }
            proof {
                assert(ps.take(path_params@.len() as int) =~= ps);
            }
            handler_code.append("}\n\n");
            let path_extractor = match framework {
                Framework::Axum => {
                    let mut x = str_owned("Path(params): Path<");
                    x.append(model_name);
                    x.append("PathParams>");
                    x
                },
                Framework::ActixWeb => {
                    let mut x = str_owned("path: web::Path<");
                    x.append(model_name);
                    x.append("PathParams>");
                    x
                },
            };
            proof {
                assert(path_extractor@ =~= path_extractor_spec(mv, framework));
                assert(handler_code@ =~= params_struct_spec(mv, ev));
            }
            extractors.push(path_extractor);
        },
    }

    if endpoint.query_params.is_some() {
        let mut x = str_owned("Query(query): Query<");
        x.append(model_name);
        x.append("QueryParams>");
        proof {
            assert(x@ =~= query_extractor_spec(mv));
        }
        extractors.push(x);
    }

    if endpoint.body_params.is_some() {
        let body_extractor = match framework {
            Framework::Axum => {
                let mut x = str_owned("Json(body): Json<");
                x.append(model_name);
                x.append(">");
                x
            },
            Framework::ActixWeb => {
                let mut x = str_owned("body: web::Json<");
                x.append(model_name);
                x.append(">");
                x
            },
        };
        proof {
            assert(body_extractor@ =~= body_extractor_spec(mv, framework));
        }
        extractors.push(body_extractor);
    }

    proof {
        assert(extractors.deep_view() =~= extractors_spec(mv, ev, framework));
    }
    let extractor_str = join_strs(&extractors, ", ");

    let mut collection = String::new();
    push_char(&mut collection, '/');
    collection.append(model_lower.as_str());
    proof {
        assert(collection@ =~= collection_path_spec(mv));
    }

    let is_get = str_eq(method.as_str(), "get");
    let is_post = str_eq(method.as_str(), "post");
    let on_collection = str_eq(endpoint.path.as_str(), collection.as_str());

    let handler_body: String = if is_get && on_collection {
        let mut b = str_owned("let items = state.");
        b.append(sfield.as_str());
        b.append(".get_all().await?;\nOk(");
        match framework {
            Framework::Axum => b.append("Json"),
            Framework::ActixWeb => b.append("web::Json"),
        }
        b.append("(items))");
        b
    } else if is_post && on_collection {
        let mut b = str_owned("let item = state.");
        b.append(sfield.as_str());
        b.append(".create(body).await?;\nOk(");
        match framework {
            Framework::Axum => b.append("Json"),
            Framework::ActixWeb => b.append("web::Json"),
        }
        b.append("(item))");
        b
    } else if is_get && contains_char(endpoint.path.as_str(), '{') {
        let mut b = str_owned("let item = state.");
        b.append(sfield.as_str());
        b.append(".get_by_id(");
        match framework {
            Framework::Axum => b.append("params"),
            Framework::ActixWeb => b.append("path"),
        }
        b.append(".id).await?.ok_or(AppError::NotFound(format!(\"Not found\")))?;\nOk(");
        match framework {
            Framework::Axum => b.append("Json"),
            Framework::ActixWeb => b.append("web::Json"),
        }
        b.append("(item))");
        b
    } else {
        str_owned("// TODO: Implement handler logic\ntodo!()")
    };
    proof {
        assert(handler_body@ =~= handler_body_spec(mv, ev, framework));
    }

    let return_type = match framework {
        Framework::Axum => {
            let mut x = str_owned("Result<Json<");
            x.append(model_name);
            x.append(">, AppError>");
            x
        },
        Framework::ActixWeb => {
            let mut x = str_owned("Result<web::Json<");
            x.append(model_name);
            x.append(">, AppError>");
            x
        },
    };
    proof {
        assert(return_type@ =~= return_type_spec(mv, framework));
    }

    handler_code.append("pub async fn ");
    handler_code.append(hname.as_str());
    handler_code.append("(");
    handler_code.append(extractor_str.as_str());
    handler_code.append(") -> ");
    handler_code.append(return_type.as_str());
    handler_code.append(" {\n");
    handler_code.append(handler_body.as_str());
    handler_code.append("\n}\n");
    proof {
        assert(handler_code@ =~= generate_handler_spec(mv, ev, framework));
    }
    handler_code
}

} // verus!
