//! The flat-shape materializer: the route table, the aggregation files and
//! the per-model, per-endpoint and per-middleware artifacts of the flat
//! project layout.

use vstd::prelude::*;
use vstd::string::StringExecFns;
use crate::application::project_service::GeneratedFile;
use crate::application::project_service::GeneratedFileV;
use crate::casing::snake_of;
use crate::casing::to_snake;
use crate::config::Config;
use crate::config::ConfigV;
use crate::endpoints::endpoint_content_spec;
use crate::endpoints::endpoint_dir_spec;
use crate::endpoints::endpoint_path_spec;
use crate::endpoints::generate_endpoint;
use crate::endpoints::EndpointV;
use crate::middleware::generate_middleware;
use crate::middleware::middleware_content_spec;
use crate::middleware::middleware_dir_spec;
use crate::middleware::middleware_path_spec;
use crate::middleware::MiddlewareV;
use crate::models::generate_model;
use crate::models::model_content_spec;
use crate::models::model_dir_spec;
use crate::models::model_path_spec;
use crate::models::ModelV;
use crate::naming::ascii_lower;
use crate::naming::lower_spec;
use crate::naming::push_char;
use crate::text::str_eq;
use crate::text::str_owned;

verus! {

/// The endpoints a flat model declares, or none.
pub open spec fn endpoints_of(m: ModelV) -> Seq<EndpointV> {
    match m.endpoints {
        Some(es) => es,
        None => Seq::empty(),
    }
}

/// The characters one path character contributes to a route name:
/// separators become underscores and colons vanish.
pub open spec fn route_name_seg_spec(c: char) -> Seq<char> {
    if c == '/' {
        seq!['_']
    } else if c == ':' {
        Seq::empty()
    } else {
        seq![c]
    }
}

/// The route-name rendering of a path.
pub open spec fn route_name_path_spec(s: Seq<char>) -> Seq<char>
    decreases s.len(),
{
    if s.len() == 0 {
        Seq::empty()
    } else {
        route_name_path_spec(s.drop_last()) + route_name_seg_spec(s.last())
    }
}

/// Renders a path as the identifier part of a route name.
#[verifier::loop_isolation(false)]
fn route_name_path(path: &str) -> (r: String)
    ensures
        r@ == route_name_path_spec(path@),
{
    let n = path.unicode_len();
    let mut r = String::new();
    let mut i: usize = 0;
    while i < n
        invariant
            n == path@.len(),
            i <= n,
            r@ == route_name_path_spec(path@.take(i as int)),
        decreases n - i,
    {
        let c = path.get_char(i);
        if c == '/' {
            push_char(&mut r, '_');
        } else if c == ':' {
        } else {
            push_char(&mut r, c);
        }
        proof {
            assert(path@.take(i + 1).drop_last() =~= path@.take(i as int));
            assert(path@.take(i + 1).last() == path@[i as int]);
            assert(r@ =~= route_name_path_spec(path@.take(i + 1)));
        }
        i = i + 1;
    }
    proof {
        assert(path@.take(n as int) =~= path@);
    }
    r
}

/// The route-table lines one endpoint contributes: a fetch-all route ahead of
/// every `GET` route, then the route itself.
pub open spec fn router_endpoint_lines_spec(e: EndpointV) -> Seq<char> {
    let stem = route_name_path_spec(lower_spec(e.path));
    let method = lower_spec(e.method);
    (if method == "get"@ {
        "    .route(\""@ + e.path + "/all\",get(get_all"@ + stem + "))\n"@
    } else {
        Seq::empty()
    }) + "    .route(\""@ + e.path + "\","@ + method + "("@ + method + stem + "))\n\t"@
}

/// The route-table lines of a sequence of endpoints.
pub open spec fn router_lines_spec(es: Seq<EndpointV>) -> Seq<char>
    decreases es.len(),
{
    if es.len() == 0 {
        Seq::empty()
    } else {
        router_lines_spec(es.drop_last()) + router_endpoint_lines_spec(es.last())
    }
}

/// The route-table lines of all models, in declaration order.
pub open spec fn router_models_spec(ms: Seq<ModelV>) -> Seq<char>
    decreases ms.len(),
{
    if ms.len() == 0 {
        Seq::empty()
    } else {
        router_models_spec(ms.drop_last()) + router_lines_spec(endpoints_of(ms.last()))
    }
}

/// The whole flat route table.
pub open spec fn create_router_spec(c: ConfigV) -> Seq<char> {
    "Router::new()\n"@ + router_models_spec(c.models)
}

/// Renders the route-table lines of one endpoint.
fn router_endpoint_lines(endpoint: &crate::endpoints::Endpoint) -> (r: String)
    ensures
        r@ == router_endpoint_lines_spec(endpoint.deep_view()),
{
    let method = ascii_lower(endpoint.method.as_str());
    let lowered_path = ascii_lower(endpoint.path.as_str());
    let stem = route_name_path(lowered_path.as_str());
    let mut r = String::new();
    if str_eq(method.as_str(), "get") {
        r.append("    .route(\"");
        r.append(endpoint.path.as_str());
        r.append("/all\",get(get_all");
        r.append(stem.as_str());
        r.append("))\n");
    }
    r.append("    .route(\"");
    r.append(endpoint.path.as_str());
    r.append("\",");
    r.append(method.as_str());
    r.append("(");
    r.append(method.as_str());
    r.append(stem.as_str());
    r.append("))\n\t");
    proof {
        assert(r@ =~= router_endpoint_lines_spec(endpoint.deep_view()));
    }
    r
}

/// Renders the flat route table of a configuration.
#[verifier::loop_isolation(false)]
#[verifier::rlimit(100)]
pub fn create_router(config: &Config) -> (r: String)
    ensures
        r@ == create_router_spec(config.deep_view()),
{
    let ghost ms = config.deep_view().models;
    let mut router = str_owned("Router::new()\n");
    let ghost head = router@;
    let mut i: usize = 0;
    while i < config.models.len()
        invariant
            i <= config.models@.len(),
            router@ == head + router_models_spec(ms.take(i as int)),
        decreases config.models@.len() - i,
    {
        proof {
            assert(ms[i as int] == config.models@[i as int].deep_view());
            assert(ms.take(i + 1).drop_last() =~= ms.take(i as int));
            assert(ms.take(i + 1).last() == ms[i as int]);
        }
        match &config.models[i].endpoints {
            None => {
                proof {
                    assert(router@ =~= head + router_models_spec(ms.take(i + 1)));
                }
            },
            Some(endpoints) => {
                let ghost es = endpoints.deep_view();
                let mut j: usize = 0;
                while j < endpoints.len()
                    invariant
                        i < config.models@.len(),
                        es == endpoints_of(ms[i as int]),
                        es.len() == endpoints@.len(),
                        j <= endpoints@.len(),
                        router@ == head + router_models_spec(ms.take(i as int))
                            + router_lines_spec(es.take(j as int)),
                    decreases endpoints@.len() - j,
                {
                    proof {
                        assert(es[j as int] == endpoints@[j as int].deep_view());
                    }
                    let line = router_endpoint_lines(&endpoints[j]);
                    router.append(line.as_str());
                    proof {
                        assert(es.take(j + 1).drop_last() =~= es.take(j as int));
                        assert(es.take(j + 1).last() == es[j as int]);
                        assert(router@ =~= head + router_models_spec(ms.take(i as int))
                            + router_lines_spec(es.take(j + 1)));
                    }
                    j = j + 1;
                }
                proof {
                    assert(es.take(endpoints@.len() as int) =~= es);
                    assert(router@ =~= head + router_models_spec(ms.take(i + 1)));
                }
            },
        }
        i = i + 1;
    }
    proof {
        assert(ms.take(config.models@.len() as int) =~= ms);
    }
    router
}

/// The module declarations of a flat aggregation file, names snake-cased.
pub open spec fn module_mods_spec(names: Seq<Seq<char>>) -> Seq<char>
    decreases names.len(),
{
    if names.len() == 0 {
        Seq::empty()
    } else {
        module_mods_spec(names.drop_last()) + "pub mod "@ + snake_of(names.last()) + ";\n"@
    }
}

/// The re-exports of a flat aggregation file, names snake-cased.
pub open spec fn module_uses_spec(names: Seq<Seq<char>>) -> Seq<char>
    decreases names.len(),
{
    if names.len() == 0 {
        Seq::empty()
    } else {
        module_uses_spec(names.drop_last()) + "pub use "@ + snake_of(names.last()) + "::*;\n"@
    }
}

/// The text of a flat aggregation file: all declarations, then all
/// re-exports.
pub open spec fn module_content_spec(names: Seq<Seq<char>>) -> Seq<char> {
    module_mods_spec(names) + module_uses_spec(names)
}

/// The directory of a flat aggregation file.
pub open spec fn module_dir_spec(p: Seq<char>, dir_name: Seq<char>) -> Seq<char> {
    "./"@ + p + dir_name
}

/// The aggregation-file entry of one generated source directory.
pub open spec fn module_entry_spec(p: Seq<char>, dir_name: Seq<char>, names: Seq<Seq<char>>) -> (
    Seq<char>,
    GeneratedFileV,
) {
    (
        module_dir_spec(p, dir_name),
        GeneratedFileV {
            path: module_dir_spec(p, dir_name) + "/mod.rs"@,
            content: module_content_spec(names),
        },
    )
}

/// Renders the aggregation file of one directory and names the directory it
/// belongs to.
#[verifier::loop_isolation(false)]
pub fn generate_module(project_name: &str, dir_name: &str, name: &Vec<String>) -> (r: (
    String,
    GeneratedFile,
))
    ensures
        (r.0@, r.1.deep_view()) == module_entry_spec(project_name@, dir_name@, name.deep_view()),
{
    let ghost ns = name.deep_view();
    let mut module_dir = String::new();
    module_dir.append("./");
    module_dir.append(project_name);
    module_dir.append(dir_name);
    proof {
        assert(module_dir@ =~= module_dir_spec(project_name@, dir_name@));
    }
    let mut module_file = String::new();
    module_file.append(module_dir.as_str());
    module_file.append("/mod.rs");
    proof {
        assert(module_file@ =~= module_dir_spec(project_name@, dir_name@) + "/mod.rs"@);
    }
    let mut content = String::new();
    let mut i: usize = 0;
    while i < name.len()
        invariant
            i <= name@.len(),
            content@ == module_mods_spec(ns.take(i as int)),
        decreases name@.len() - i,
    {
        proof {
            assert(ns[i as int] == name@[i as int]@);
        }
        let snake = to_snake(name[i].as_str());
        content.append("pub mod ");
        content.append(snake.as_str());
        content.append(";\n");
        proof {
            assert(ns.take(i + 1).drop_last() =~= ns.take(i as int));
            assert(ns.take(i + 1).last() == ns[i as int]);
            assert(content@ =~= module_mods_spec(ns.take(i + 1)));
        }
        i = i + 1;
    }
    let ghost mods = content@;
    let mut i: usize = 0;
    while i < name.len()
        invariant
            i <= name@.len(),
            content@ == mods + module_uses_spec(ns.take(i as int)),
        decreases name@.len() - i,
    {
        proof {
            assert(ns[i as int] == name@[i as int]@);
        }
        let snake = to_snake(name[i].as_str());
        content.append("pub use ");
        content.append(snake.as_str());
        content.append("::*;\n");
        proof {
            assert(ns.take(i + 1).drop_last() =~= ns.take(i as int));
            assert(ns.take(i + 1).last() == ns[i as int]);
            assert(content@ =~= mods + module_uses_spec(ns.take(i + 1)));
        }
        i = i + 1;
    }
    proof {
        assert(ns.take(name@.len() as int) =~= ns);
        assert(content@ =~= module_content_spec(ns));
    }
    (module_dir, GeneratedFile { path: module_file, content })
}

/// The route-file name of one endpoint: the method as declared, followed by
/// the rendered path.
pub open spec fn endpoint_file_name_spec(e: EndpointV) -> Seq<char> {
    e.method + route_name_path_spec(e.path)
}

/// The route-file names of a sequence of endpoints.
pub open spec fn endpoint_file_names_spec(es: Seq<EndpointV>) -> Seq<Seq<char>>
    decreases es.len(),
{
    if es.len() == 0 {
        Seq::empty()
    } else {
        endpoint_file_names_spec(es.drop_last()) + seq![endpoint_file_name_spec(es.last())]
    }
}

/// The route-file names of the `GET` endpoints of a sequence.
pub open spec fn example_file_names_spec(es: Seq<EndpointV>) -> Seq<Seq<char>>
    decreases es.len(),
{
    if es.len() == 0 {
        Seq::empty()
    } else {
        example_file_names_spec(es.drop_last()) + (if lower_spec(es.last().method) == "get"@ {
            seq![endpoint_file_name_spec(es.last())]
        } else {
            Seq::empty()
        })
    }
}

/// The route-file names of all models' endpoints, in declaration order.
pub open spec fn all_endpoint_file_names_spec(ms: Seq<ModelV>) -> Seq<Seq<char>>
    decreases ms.len(),
{
    if ms.len() == 0 {
        Seq::empty()
    } else {
        all_endpoint_file_names_spec(ms.drop_last()) + endpoint_file_names_spec(
            endpoints_of(ms.last()),
        )
    }
}

/// The example route-file names of all models, in declaration order.
pub open spec fn all_example_file_names_spec(ms: Seq<ModelV>) -> Seq<Seq<char>>
    decreases ms.len(),
{
    if ms.len() == 0 {
        Seq::empty()
    } else {
        all_example_file_names_spec(ms.drop_last()) + example_file_names_spec(
            endpoints_of(ms.last()),
        )
    }
}

/// Whether any model declares a non-empty endpoint list.
pub open spec fn has_endpoints_spec(ms: Seq<ModelV>) -> bool {
    exists|i: int| 0 <= i < ms.len() && endpoints_of(ms[i]).len() > 0
}

/// The per-model flat model-file entries, each with its directory.
pub open spec fn model_entries_spec(p: Seq<char>, ms: Seq<ModelV>) -> Seq<
    (Seq<char>, GeneratedFileV),
>
    decreases ms.len(),
{
    if ms.len() == 0 {
        Seq::empty()
    } else {
        model_entries_spec(p, ms.drop_last()) + seq![
            (
                model_dir_spec(p),
                GeneratedFileV {
                    path: model_path_spec(p, ms.last()),
                    content: model_content_spec(ms.last()),
                },
            ),
        ]
    }
}

/// The route-file entries of a sequence of endpoints: the route file of each
/// endpoint, and an example file after each `GET` route file.
pub open spec fn endpoint_entries_spec(
    p: Seq<char>,
    es: Seq<EndpointV>,
    d: Seq<char>,
    model_name: Seq<char>,
) -> Seq<(Seq<char>, GeneratedFileV)>
    decreases es.len(),
{
    if es.len() == 0 {
        Seq::empty()
    } else {
        endpoint_entries_spec(p, es.drop_last(), d, model_name) + seq![
            (
                endpoint_dir_spec(p, false),
                GeneratedFileV {
                    path: endpoint_path_spec(p, es.last(), false),
                    content: endpoint_content_spec(es.last(), d, model_name, false),
                },
            ),
        ] + (if lower_spec(es.last().method) == "get"@ {
            seq![
                (
                    endpoint_dir_spec(p, true),
                    GeneratedFileV {
                        path: endpoint_path_spec(p, es.last(), true),
                        content: endpoint_content_spec(es.last(), d, model_name, true),
                    },
                ),
            ]
        } else {
            Seq::empty()
        })
    }
}

/// The route-file entries of all models, in declaration order.
pub open spec fn all_endpoint_entries_spec(p: Seq<char>, ms: Seq<ModelV>, d: Seq<char>) -> Seq<
    (Seq<char>, GeneratedFileV),
>
    decreases ms.len(),
{
    if ms.len() == 0 {
        Seq::empty()
    } else {
        all_endpoint_entries_spec(p, ms.drop_last(), d) + endpoint_entries_spec(
            p,
            endpoints_of(ms.last()),
            d,
            ms.last().name,
        )
    }
}

/// The per-middleware guard entries, each with its directory.
pub open spec fn middleware_entries_spec(p: Seq<char>, mws: Seq<MiddlewareV>, d: Seq<char>) -> Seq<
    (Seq<char>, GeneratedFileV),
>
    decreases mws.len(),
{
    if mws.len() == 0 {
        Seq::empty()
    } else {
        middleware_entries_spec(p, mws.drop_last(), d) + seq![
            (
                middleware_dir_spec(p),
                GeneratedFileV {
                    path: middleware_path_spec(p, mws.last()),
                    content: middleware_content_spec(mws.last(), d),
                },
            ),
        ]
    }
}

/// The names the routes aggregation file lists: every route-file name, and
/// the example directory when example files exist.
pub open spec fn routes_module_names_spec(ms: Seq<ModelV>) -> Seq<Seq<char>> {
    all_endpoint_file_names_spec(ms) + (if all_example_file_names_spec(ms).len() > 0 {
        seq!["example"@]
    } else {
        Seq::empty()
    })
}

/// The names the middlewares aggregation file lists.
pub open spec fn middleware_module_names_spec(mws: Seq<MiddlewareV>) -> Seq<Seq<char>> {
    mws.map_values(|w: MiddlewareV| w.model + "_middleware"@)
}

/// The names the models aggregation file lists.
pub open spec fn model_module_names_spec(ms: Seq<ModelV>) -> Seq<Seq<char>> {
    ms.map_values(|m: ModelV| m.name)
}

/// Every flat artifact a run produces, each with its directory, in write
/// order: model files, the models aggregation file, route files with their
/// example variants, the routes and example aggregation files, middleware
/// guards, and the middlewares aggregation file.
pub open spec fn modify_files_spec(p: Seq<char>, c: ConfigV) -> Seq<(Seq<char>, GeneratedFileV)> {
    model_entries_spec(p, c.models) + (if c.models.len() > 0 {
        seq![module_entry_spec(p, "/src/models"@, model_module_names_spec(c.models))]
    } else {
        Seq::empty()
    }) + all_endpoint_entries_spec(p, c.models, c.database_type) + (if has_endpoints_spec(
        c.models,
    ) {
        seq![module_entry_spec(p, "/src/routes"@, routes_module_names_spec(c.models))]
    } else {
        Seq::empty()
    }) + (if all_example_file_names_spec(c.models).len() > 0 {
        seq![
            module_entry_spec(p, "/src/routes/example"@, all_example_file_names_spec(c.models)),
        ]
    } else {
        Seq::empty()
    }) + (match c.middlewares {
        Some(mws) => middleware_entries_spec(p, mws, c.database_type) + (if c.models.len() > 0 {
            seq![
                module_entry_spec(p, "/src/middlewares"@, middleware_module_names_spec(mws)),
            ]
        } else {
            Seq::empty()
        }),
        None => Seq::empty(),
    })
}

/// Appends the flat model-file entries of every model.
#[verifier::loop_isolation(false)]
fn push_model_entries(out: &mut Vec<(String, GeneratedFile)>, project_name: &str, config: &Config)
    ensures
        final(out).deep_view() == old(out).deep_view() + model_entries_spec(
            project_name@,
            config.deep_view().models,
        ),
{
    let ghost ms = config.deep_view().models;
    let ghost base = out.deep_view();
    let mut i: usize = 0;
    while i < config.models.len()
        invariant
            i <= config.models@.len(),
            out.deep_view() =~= base + model_entries_spec(project_name@, ms.take(i as int)),
        decreases config.models@.len() - i,
    {
        proof {
            assert(ms[i as int] == config.models@[i as int].deep_view());
            assert(ms.take(i + 1).drop_last() =~= ms.take(i as int));
            assert(ms.take(i + 1).last() == ms[i as int]);
        }
        let entry = generate_model(project_name, &config.models[i]);
        let ghost ent = entry.deep_view();
        let ghost before = out.deep_view();
        out.push(entry);
        proof {
            assert(out.deep_view() =~= before.push(ent));
            assert(out.deep_view() =~= base + model_entries_spec(project_name@, ms.take(i + 1)));
        }
        i = i + 1;
    }
    proof {
        assert(ms.take(config.models@.len() as int) =~= ms);
    }
}

/// The model names as declared, for the models aggregation file.
#[verifier::loop_isolation(false)]
fn model_names_raw(config: &Config) -> (r: Vec<String>)
    ensures
        r.deep_view() == model_module_names_spec(config.deep_view().models),
{
    let ghost ms = config.deep_view().models;
    let mut names: Vec<String> = Vec::new();
    let mut i: usize = 0;
    while i < config.models.len()
        invariant
            i <= config.models@.len(),
            names.deep_view() =~= ms.take(i as int).map_values(|m: ModelV| m.name),
        decreases config.models@.len() - i,
    {
        proof {
            assert(ms[i as int] == config.models@[i as int].deep_view());
        }
        let ghost before = names.deep_view();
        names.push(str_owned(config.models[i].name.as_str()));
        proof {
            assert(names.deep_view() =~= before.push(ms[i as int].name));
            assert(ms.take(i + 1).map_values(|m: ModelV| m.name) =~= before.push(
                ms[i as int].name,
            ));
        }
        i = i + 1;
    }
    proof {
        assert(ms.take(config.models@.len() as int) =~= ms);
    }
    names
}

/// Appends the route-file entries of every endpoint of every model, with an
/// example file after each `GET` route file.
#[verifier::loop_isolation(false)]
#[verifier::rlimit(100)]
fn push_endpoint_entries(out: &mut Vec<(String, GeneratedFile)>, project_name: &str, config: &Config)
    ensures
        final(out).deep_view() == old(out).deep_view() + all_endpoint_entries_spec(
            project_name@,
            config.deep_view().models,
            config.deep_view().database_type,
        ),
{
    let ghost ms = config.deep_view().models;
    let ghost p = project_name@;
    let ghost d = config.deep_view().database_type;
    let ghost base = out.deep_view();
    let mut i: usize = 0;
    while i < config.models.len()
        invariant
            i <= config.models@.len(),
            out.deep_view() =~= base + all_endpoint_entries_spec(p, ms.take(i as int), d),
        decreases config.models@.len() - i,
    {
        proof {
            assert(ms[i as int] == config.models@[i as int].deep_view());
            assert(ms.take(i + 1).drop_last() =~= ms.take(i as int));
            assert(ms.take(i + 1).last() == ms[i as int]);
        }
        match &config.models[i].endpoints {
            None => {
                proof {
                    assert(out.deep_view() =~= base + all_endpoint_entries_spec(
                        p,
                        ms.take(i + 1),
                        d,
                    ));
                }
            },
            Some(endpoints) => {
                let ghost es = endpoints.deep_view();
                let mut j: usize = 0;
                while j < endpoints.len()
                    invariant
                        i < config.models@.len(),
                        es == endpoints_of(ms[i as int]),
                        es.len() == endpoints@.len(),
                        j <= endpoints@.len(),
                        out.deep_view() =~= base + all_endpoint_entries_spec(
                            p,
                            ms.take(i as int),
                            d,
                        ) + endpoint_entries_spec(p, es.take(j as int), d, ms[i as int].name),
                    decreases endpoints@.len() - j,
                {
                    proof {
                        assert(es[j as int] == endpoints@[j as int].deep_view());
                        assert(es.take(j + 1).drop_last() =~= es.take(j as int));
                        assert(es.take(j + 1).last() == es[j as int]);
                    }
                    match generate_endpoint(
                        project_name,
                        &endpoints[j],
                        config.database_type.as_str(),
                        config.models[i].name.as_str(),
                        false,
                    ) {
                        Some(entry) => {
                            let ghost ent = entry.deep_view();
                            let ghost before = out.deep_view();
                            out.push(entry);
                            proof {
                                assert(out.deep_view() =~= before.push(ent));
                            }
                        },
                        None => {
                            unreached::<()>();
                        },
                    }
                    let method_lower = ascii_lower(endpoints[j].method.as_str());
                    if str_eq(method_lower.as_str(), "get") {
                        match generate_endpoint(
                            project_name,
                            &endpoints[j],
                            config.database_type.as_str(),
                            config.models[i].name.as_str(),
                            true,
                        ) {
                            Some(entry) => {
                                let ghost ent = entry.deep_view();
                                let ghost before = out.deep_view();
                                out.push(entry);
                                proof {
                                    assert(out.deep_view() =~= before.push(ent));
                                }
                            },
                            None => {
                                unreached::<()>();
                            },
                        }
                    }
                    proof {
                        assert(out.deep_view() =~= base + all_endpoint_entries_spec(
                            p,
                            ms.take(i as int),
                            d,
                        ) + endpoint_entries_spec(p, es.take(j + 1), d, ms[i as int].name));
                    }
                    j = j + 1;
                }
                proof {
                    assert(es.take(endpoints@.len() as int) =~= es);
                    assert(out.deep_view() =~= base + all_endpoint_entries_spec(
                        p,
                        ms.take(i + 1),
                        d,
                    ));
                }
            },
        }
        i = i + 1;
    }
    proof {
        assert(ms.take(config.models@.len() as int) =~= ms);
    }
}

/// Collects the route-file names, the example route-file names, and whether
/// any model declares endpoints.
#[verifier::loop_isolation(false)]
#[verifier::rlimit(100)]
fn route_file_names(config: &Config) -> (r: (Vec<String>, Vec<String>, bool))
    ensures
        r.0.deep_view() == all_endpoint_file_names_spec(config.deep_view().models),
        r.1.deep_view() == all_example_file_names_spec(config.deep_view().models),
        r.2 == has_endpoints_spec(config.deep_view().models),
{
    let ghost ms = config.deep_view().models;
    let mut endpoint_names: Vec<String> = Vec::new();
    let mut example_names: Vec<String> = Vec::new();
    let mut found_endpoints = false;
    let mut i: usize = 0;
    while i < config.models.len()
        invariant
            i <= config.models@.len(),
            endpoint_names.deep_view() =~= all_endpoint_file_names_spec(ms.take(i as int)),
            example_names.deep_view() =~= all_example_file_names_spec(ms.take(i as int)),
            found_endpoints == exists|i2: int| 0 <= i2 < i && endpoints_of(ms[i2]).len() > 0,
        decreases config.models@.len() - i,
    {
        proof {
            assert(ms[i as int] == config.models@[i as int].deep_view());
            assert(ms.take(i + 1).drop_last() =~= ms.take(i as int));
            assert(ms.take(i + 1).last() == ms[i as int]);
        }
        match &config.models[i].endpoints {
            None => {
                proof {
                    assert(endpoint_names.deep_view() =~= all_endpoint_file_names_spec(
                        ms.take(i + 1),
                    ));
                    assert(example_names.deep_view() =~= all_example_file_names_spec(
                        ms.take(i + 1),
                    ));
                }
            },
            Some(endpoints) => {
                if endpoints.len() > 0 {
                    found_endpoints = true;
                }
                let ghost es = endpoints.deep_view();
                let mut j: usize = 0;
                while j < endpoints.len()
                    invariant
                        i < config.models@.len(),
                        es == endpoints_of(ms[i as int]),
                        es.len() == endpoints@.len(),
                        j <= endpoints@.len(),
                        endpoint_names.deep_view() =~= all_endpoint_file_names_spec(
                            ms.take(i as int),
                        ) + endpoint_file_names_spec(es.take(j as int)),
                        example_names.deep_view() =~= all_example_file_names_spec(
                            ms.take(i as int),
                        ) + example_file_names_spec(es.take(j as int)),
                    decreases endpoints@.len() - j,
                {
                    proof {
                        assert(es[j as int] == endpoints@[j as int].deep_view());
                        assert(es.take(j + 1).drop_last() =~= es.take(j as int));
                        assert(es.take(j + 1).last() == es[j as int]);
                    }
                    let stem = route_name_path(endpoints[j].path.as_str());
                    let mut file = str_owned(endpoints[j].method.as_str());
                    file.append(stem.as_str());
                    proof {
                        assert(file@ =~= endpoint_file_name_spec(es[j as int]));
                    }
                    let method_lower = ascii_lower(endpoints[j].method.as_str());
                    let ghost before_ep = endpoint_names.deep_view();
                    let ghost before_ex = example_names.deep_view();
                    if str_eq(method_lower.as_str(), "get") {
                        example_names.push(str_owned(file.as_str()));
                        proof {
                            assert(example_names.deep_view() =~= before_ex.push(
                                endpoint_file_name_spec(es[j as int]),
                            ));
                        }
                    }
                    endpoint_names.push(file);
                    proof {
                        assert(endpoint_names.deep_view() =~= before_ep.push(
                            endpoint_file_name_spec(es[j as int]),
                        ));
                        assert(endpoint_names.deep_view() =~= all_endpoint_file_names_spec(
                            ms.take(i as int),
                        ) + endpoint_file_names_spec(es.take(j + 1)));
                        assert(example_names.deep_view() =~= all_example_file_names_spec(
                            ms.take(i as int),
                        ) + example_file_names_spec(es.take(j + 1)));
                    }
                    j = j + 1;
                }
                proof {
                    assert(es.take(endpoints@.len() as int) =~= es);
                }
            },
        }
        i = i + 1;
    }
    proof {
        assert(ms.take(config.models@.len() as int) =~= ms);
        assert(found_endpoints == has_endpoints_spec(ms));
    }
    (endpoint_names, example_names, found_endpoints)
}

/// Appends the middleware-guard entries of every declared block.
#[verifier::loop_isolation(false)]
fn push_middleware_entries(out: &mut Vec<(String, GeneratedFile)>, project_name: &str, config: &Config)
    ensures
        final(out).deep_view() == old(out).deep_view() + (match config.deep_view().middlewares {
            Some(mws) => middleware_entries_spec(
                project_name@,
                mws,
                config.deep_view().database_type,
            ),
            None => Seq::empty(),
        }),
{
    let ghost p = project_name@;
    let ghost d = config.deep_view().database_type;
    let ghost base = out.deep_view();
    match &config.middlewares {
        None => {},
        Some(middlewares) => {
            let ghost bs = middlewares.deep_view();
            let mut k: usize = 0;
            while k < middlewares.len()
                invariant
                    k <= middlewares@.len(),
                    out.deep_view() =~= base + middleware_entries_spec(p, bs.take(k as int), d),
                decreases middlewares@.len() - k,
            {
                proof {
                    assert(bs[k as int] == middlewares@[k as int].deep_view());
                    assert(bs.take(k + 1).drop_last() =~= bs.take(k as int));
                    assert(bs.take(k + 1).last() == bs[k as int]);
                }
                let entry = generate_middleware(project_name, &config.database_type, &middlewares[k]);
                let ghost ent = entry.deep_view();
                let ghost before = out.deep_view();
                out.push(entry);
                proof {
                    assert(out.deep_view() =~= before.push(ent));
                    assert(out.deep_view() =~= base + middleware_entries_spec(
                        p,
                        bs.take(k + 1),
                        d,
                    ));
                }
                k = k + 1;
            }
            proof {
                assert(bs.take(middlewares@.len() as int) =~= bs);
            }
        },
    }
}

/// The middleware module names as declared, for the middlewares aggregation
/// file.
#[verifier::loop_isolation(false)]
fn middleware_names_raw(middlewares: &Vec<crate::middleware::Middleware>) -> (r: Vec<String>)
    ensures
        r.deep_view() == middleware_module_names_spec(middlewares.deep_view()),
{
    let ghost bs = middlewares.deep_view();
    let mut names: Vec<String> = Vec::new();
    let mut k: usize = 0;
    while k < middlewares.len()
        invariant
            k <= middlewares@.len(),
            names.deep_view() =~= bs.take(k as int).map_values(
                |w: MiddlewareV| w.model + "_middleware"@,
            ),
        decreases middlewares@.len() - k,
    {
        proof {
            assert(bs[k as int] == middlewares@[k as int].deep_view());
        }
        let mut n = str_owned(middlewares[k].model.as_str());
        n.append("_middleware");
        let ghost before = names.deep_view();
        names.push(n);
        proof {
            assert(names.deep_view() =~= before.push(bs[k as int].model + "_middleware"@));
            assert(bs.take(k + 1).map_values(|w: MiddlewareV| w.model + "_middleware"@)
                =~= before.push(bs[k as int].model + "_middleware"@));
        }
        k = k + 1;
    }
    proof {
        assert(bs.take(middlewares@.len() as int) =~= bs);
    }
    names
}

/// Renders every flat artifact of a configuration, each named with the
/// directory it lands in, in write order.
#[verifier::loop_isolation(false)]
#[verifier::rlimit(100)]
pub fn modify_files(project_name: &str, config: &Config) -> (r: Vec<(String, GeneratedFile)>)
    ensures
        r.deep_view() == modify_files_spec(project_name@, config.deep_view()),
{
    let ghost cv = config.deep_view();
    let ghost ms = cv.models;
    let ghost p = project_name@;
    let ghost d = cv.database_type;
    let mut out: Vec<(String, GeneratedFile)> = Vec::new();

    push_model_entries(&mut out, project_name, config);
    let ghost stage2 = model_entries_spec(p, ms) + (if ms.len() > 0 {
        seq![module_entry_spec(p, "/src/models"@, model_module_names_spec(ms))]
    } else {
        Seq::<(Seq<char>, GeneratedFileV)>::empty()
    });
    if config.models.len() > 0 {
        let names = model_names_raw(config);
        let entry = generate_module(project_name, "/src/models", &names);
        let ghost ent = entry.deep_view();
        let ghost before = out.deep_view();
        out.push(entry);
        proof {
            assert(out.deep_view() =~= before.push(ent));
        }
    }
    proof {
        assert(out.deep_view() =~= stage2);
    }

    push_endpoint_entries(&mut out, project_name, config);
    let ghost stage3 = stage2 + all_endpoint_entries_spec(p, ms, d);
    proof {
        assert(out.deep_view() =~= stage3);
    }

    let (endpoint_names, example_names, found_endpoints) = route_file_names(config);
    let ghost stage4 = stage3 + (if has_endpoints_spec(ms) {
        seq![module_entry_spec(p, "/src/routes"@, routes_module_names_spec(ms))]
    } else {
        Seq::<(Seq<char>, GeneratedFileV)>::empty()
    });
    if found_endpoints {
        let mut ep = endpoint_names;
        let ghost before_ep = ep.deep_view();
        if example_names.len() > 0 {
            ep.push(str_owned("example"));
            proof {
                assert(ep.deep_view() =~= before_ep.push("example"@));
            }
        }
        proof {
            assert(ep.deep_view() =~= routes_module_names_spec(ms));
        }
        let entry = generate_module(project_name, "/src/routes", &ep);
        let ghost ent = entry.deep_view();
        let ghost before = out.deep_view();
        out.push(entry);
        proof {
            assert(out.deep_view() =~= before.push(ent));
        }
    }
    proof {
        assert(out.deep_view() =~= stage4);
    }

    let ghost stage5 = stage4 + (if all_example_file_names_spec(ms).len() > 0 {
        seq![module_entry_spec(p, "/src/routes/example"@, all_example_file_names_spec(ms))]
    } else {
        Seq::<(Seq<char>, GeneratedFileV)>::empty()
    });
    if example_names.len() > 0 {
        let entry = generate_module(project_name, "/src/routes/example", &example_names);
        let ghost ent = entry.deep_view();
        let ghost before = out.deep_view();
        out.push(entry);
        proof {
            assert(out.deep_view() =~= before.push(ent));
        }
    }
    proof {
        assert(out.deep_view() =~= stage5);
    }

    push_middleware_entries(&mut out, project_name, config);
    match &config.middlewares {
        None => {
            proof {
                assert(out.deep_view() =~~= modify_files_spec(p, cv));
            }
        },
        Some(middlewares) => {
            if config.models.len() > 0 {
                let names = middleware_names_raw(middlewares);
                let entry = generate_module(project_name, "/src/middlewares", &names);
                let ghost ent = entry.deep_view();
                let ghost before = out.deep_view();
                out.push(entry);
                proof {
                    assert(out.deep_view() =~= before.push(ent));
                }
            }
            proof {
                assert(out.deep_view() =~~= modify_files_spec(p, cv));
            }
        },
    }
    out
}

} // verus!
