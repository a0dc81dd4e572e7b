//! The project materializer: computes the full, ordered set of directories
//! and files a generation run produces, and writes them through the
//! file-system port.

use vstd::prelude::*;
use vstd::string::StringExecFns;
use crate::domain::config::Config;
use crate::domain::config::ConfigV;
use crate::domain::config::Middleware;
use crate::domain::config::MiddlewareV;
use crate::domain::config::Model;
use crate::domain::config::ModelV;
use crate::domain::ports::FileSystem;
use crate::domain::ports::GenError;
use crate::domain::ports::ProjectGenerator;
use crate::domain::template::Template;
use crate::domain::template::http_content_spec;
use crate::domain::template::error_content_spec;
use crate::domain::template::middleware_content_spec;
use crate::domain::template::model_content_spec;
use crate::domain::template::repository_impl_spec;
use crate::domain::template::repository_trait_spec;
use crate::domain::template::service_spec;
use crate::domain::validate::ConfigError;
use crate::domain::validate::all_refs_resolve_spec;
use crate::domain::validate::declared_middlewares;
use crate::domain::validate::has_duplicate_handler_spec;
use crate::domain::validate::validate_config;
use crate::naming::ascii_lower;
use crate::naming::lower_spec;
use crate::naming::supported_dialect_spec;
use crate::output::cargo_toml_content::cargo_toml_content;
use crate::output::cargo_toml_content::cargo_toml_content_spec;
use crate::output::compose_yaml_content::compose_yaml_content;
use crate::output::compose_yaml_content::compose_yaml_content_spec;
use crate::output::database_connection_content::database_connection_content;
use crate::output::database_connection_content::database_connection_content_spec;
use crate::output::dockerfile_content::dockerfile_content;
use crate::output::dockerfile_content::dockerfile_content_spec;
use crate::output::env_content::env_content;
use crate::output::env_content::env_content_spec;
use crate::output::ignore_content::docker_ignore_content;
use crate::output::ignore_content::docker_ignore_content_spec;
use crate::output::ignore_content::git_ignore_content;
use crate::output::ignore_content::git_ignore_content_spec;
use crate::output::main_content::main_content;
use crate::output::main_content::main_content_spec;

verus! {

/// One artifact to write: a destination path and its full text.
pub struct GeneratedFile {
    pub path: String,
    pub content: String,
}

/// The mathematical value of a `GeneratedFile`.
pub ghost struct GeneratedFileV {
    pub path: Seq<char>,
    pub content: Seq<char>,
}

impl DeepView for GeneratedFile {
    type V = GeneratedFileV;

    open spec fn deep_view(&self) -> GeneratedFileV {
        GeneratedFileV { path: self.path@, content: self.content@ }
    }
}

/// The complete output of one generation run: the directories to create, in
/// order, and the files to write, in order. Directories are created before
/// any file is written.
pub struct Plan {
    pub dirs: Vec<String>,
    pub files: Vec<GeneratedFile>,
}

/// The mathematical value of a `Plan`.
pub ghost struct PlanV {
    pub dirs: Seq<Seq<char>>,
    pub files: Seq<GeneratedFileV>,
}

impl DeepView for Plan {
    type V = PlanV;

    open spec fn deep_view(&self) -> PlanV {
        PlanV { dirs: self.dirs.deep_view(), files: self.files.deep_view() }
    }
}

/// The first problem validation reports for a configuration, if any:
/// an unrecognized dialect, then colliding handler names, then an unresolved
/// middleware reference.
pub open spec fn first_config_error_spec(c: ConfigV) -> Option<ConfigError> {
    if !supported_dialect_spec(c.database_type) {
        Some(ConfigError::UnsupportedDialect)
    } else if has_duplicate_handler_spec(c) {
        Some(ConfigError::DuplicateHandler)
    } else if !all_refs_resolve_spec(c) {
        Some(ConfigError::UnknownMiddleware)
    } else {
        None
    }
}

/// The text of an aggregation (`mod.rs`) file: one declaration and one
/// re-export per sibling module, in order.
pub open spec fn mod_rs_content_spec(names: Seq<Seq<char>>) -> Seq<char>
    decreases names.len(),
{
    if names.len() == 0 {
        Seq::empty()
    } else {
        mod_rs_content_spec(names.drop_last()) + "pub mod "@ + names.last() + ";\npub use "@
            + names.last() + "::*;\n\n"@
    }
}

/// The path of the aggregation file of one generated source directory.
pub open spec fn mod_rs_path_spec(project: Seq<char>, dir: Seq<char>) -> Seq<char> {
    project + "/src/"@ + dir + "/mod.rs"@
}

/// The name shapes derived per model for the aggregation files.
#[derive(Clone, Copy)]
pub enum ModelNameKind {
    Lower,
    Repository,
    Service,
    SqlxRepository,
}

/// The module name one model contributes to an aggregation file, per shape.
pub open spec fn model_name_spec(m: ModelV, kind: ModelNameKind) -> Seq<char> {
    match kind {
        ModelNameKind::Lower => lower_spec(m.name),
        ModelNameKind::Repository => lower_spec(m.name) + "_repository"@,
        ModelNameKind::Service => lower_spec(m.name) + "_service"@,
        ModelNameKind::SqlxRepository => "sqlx_"@ + lower_spec(m.name) + "_repository"@,
    }
}

/// The module names of all models, per shape, in declaration order.
pub open spec fn model_names_spec(ms: Seq<ModelV>, kind: ModelNameKind) -> Seq<Seq<char>> {
    ms.map_values(|m: ModelV| model_name_spec(m, kind))
}

/// The middleware module names, in declaration order.
pub open spec fn middleware_names_spec(mws: Seq<MiddlewareV>) -> Seq<Seq<char>> {
    mws.map_values(|w: MiddlewareV| lower_spec(w.model) + "_middleware"@)
}

/// The directories a run creates, in creation order.
pub open spec fn dirs_spec(c: ConfigV) -> Seq<Seq<char>> {
    seq![
        c.project_name,
        c.project_name + "/src"@,
        c.project_name + "/src/domain"@,
        c.project_name + "/src/domain/models"@,
        c.project_name + "/src/domain/ports"@,
        c.project_name + "/src/application"@,
        c.project_name + "/src/application/services"@,
        c.project_name + "/src/infrastructure"@,
        c.project_name + "/src/infrastructure/repositories"@,
        c.project_name + "/src/adapters"@,
        c.project_name + "/src/adapters/http"@,
    ]
}

/// The fixed files and aggregation files of a run, in write order.
pub open spec fn static_files_spec(c: ConfigV) -> Seq<GeneratedFileV> {
    seq![
        GeneratedFileV {
            path: c.project_name + "/Cargo.toml"@,
            content: cargo_toml_content_spec(c.project_name, c.database_type, c.framework),
        },
        GeneratedFileV { path: c.project_name + "/src/main.rs"@, content: main_content_spec(c) },
        GeneratedFileV {
            path: c.project_name + "/src/database_connection.rs"@,
            content: database_connection_content_spec(c.database_type),
        },
        GeneratedFileV { path: c.project_name + "/.env"@, content: env_content_spec(c.database_url) },
        GeneratedFileV {
            path: c.project_name + "/Dockerfile"@,
            content: dockerfile_content_spec(c.project_name),
        },
        GeneratedFileV {
            path: c.project_name + "/.dockerignore"@,
            content: docker_ignore_content_spec(),
        },
        GeneratedFileV { path: c.project_name + "/.gitignore"@, content: git_ignore_content_spec() },
        GeneratedFileV {
            path: c.project_name + "/compose.yaml"@,
            content: compose_yaml_content_spec(c.database_type),
        },
        GeneratedFileV {
            path: mod_rs_path_spec(c.project_name, "adapters/http"@),
            content: mod_rs_content_spec(seq!["http"@]),
        },
        GeneratedFileV {
            path: mod_rs_path_spec(c.project_name, "domain"@),
            content: mod_rs_content_spec(seq!["models"@, "ports"@, "error"@]),
        },
        GeneratedFileV {
            path: mod_rs_path_spec(c.project_name, "domain/models"@),
            content: mod_rs_content_spec(model_names_spec(c.models, ModelNameKind::Lower)),
        },
        GeneratedFileV {
            path: mod_rs_path_spec(c.project_name, "domain/ports"@),
            content: mod_rs_content_spec(model_names_spec(c.models, ModelNameKind::Repository)),
        },
        GeneratedFileV {
            path: mod_rs_path_spec(c.project_name, "application"@),
            content: mod_rs_content_spec(seq!["services"@]),
        },
        GeneratedFileV {
            path: mod_rs_path_spec(c.project_name, "application/services"@),
            content: mod_rs_content_spec(model_names_spec(c.models, ModelNameKind::Service)),
        },
        GeneratedFileV {
            path: mod_rs_path_spec(c.project_name, "infrastructure"@),
            content: mod_rs_content_spec(seq!["repositories"@]),
        },
        GeneratedFileV {
            path: mod_rs_path_spec(c.project_name, "infrastructure/repositories"@),
            content: mod_rs_content_spec(model_names_spec(c.models, ModelNameKind::SqlxRepository)),
        },
        GeneratedFileV {
            path: mod_rs_path_spec(c.project_name, "adapters/"@),
            content: mod_rs_content_spec(seq!["http"@]),
        },
        GeneratedFileV {
            path: mod_rs_path_spec(c.project_name, "adapters/http"@),
            content: mod_rs_content_spec(
                seq!["http"@] + middleware_names_spec(declared_middlewares(c.middlewares)),
            ),
        },
    ]
}

/// The four per-model layer files, models in declaration order.
pub open spec fn model_files_spec(p: Seq<char>, ms: Seq<ModelV>, d: Seq<char>) -> Seq<
    GeneratedFileV,
>
    decreases ms.len(),
{
    if ms.len() == 0 {
        Seq::empty()
    } else {
        model_files_spec(p, ms.drop_last(), d) + seq![
            GeneratedFileV {
                path: p + "/src/domain/models/"@ + lower_spec(ms.last().name) + ".rs"@,
                content: model_content_spec(ms.last()),
            },
            GeneratedFileV {
                path: p + "/src/domain/ports/"@ + lower_spec(ms.last().name) + "_repository.rs"@,
                content: repository_trait_spec(ms.last()),
            },
            GeneratedFileV {
                path: p + "/src/infrastructure/repositories/sqlx_"@ + lower_spec(ms.last().name)
                    + "_repository.rs"@,
                content: repository_impl_spec(ms.last(), d),
            },
            GeneratedFileV {
                path: p + "/src/application/services/"@ + lower_spec(ms.last().name)
                    + "_service.rs"@,
                content: service_spec(ms.last()),
            },
        ]
    }
}

/// The per-middleware files, blocks in declaration order.
pub open spec fn middleware_files_spec(
    p: Seq<char>,
    mws: Seq<MiddlewareV>,
    f: crate::domain::config::Framework,
) -> Seq<GeneratedFileV>
    decreases mws.len(),
{
    if mws.len() == 0 {
        Seq::empty()
    } else {
        middleware_files_spec(p, mws.drop_last(), f) + seq![
            GeneratedFileV {
                path: p + "/src/adapters/http/"@ + lower_spec(mws.last().model) + "_middleware.rs"@,
                content: middleware_content_spec(mws.last(), f),
            },
        ]
    }
}

/// Every file of a run, in write order: the fixed and aggregation files, the
/// per-model layer files, the HTTP server file, the middleware files, and
/// the error module.
pub open spec fn files_spec(c: ConfigV) -> Seq<GeneratedFileV> {
    static_files_spec(c) + model_files_spec(c.project_name, c.models, c.database_type) + seq![
        GeneratedFileV {
            path: c.project_name + "/src/adapters/http/http.rs"@,
            content: http_content_spec(c),
        },
    ] + middleware_files_spec(c.project_name, declared_middlewares(c.middlewares), c.framework)
        + seq![
        GeneratedFileV {
            path: c.project_name + "/src/domain/error.rs"@,
            content: error_content_spec(c.framework),
        },
    ]
}

/// The whole output of a run.
pub open spec fn plan_spec(c: ConfigV) -> PlanV {
    PlanV { dirs: dirs_spec(c), files: files_spec(c) }
}

/// Appends one artifact to the file list.
fn push_file(files: &mut Vec<GeneratedFile>, path: String, content: String)
    ensures
        final(files).deep_view() == old(files).deep_view().push(
            GeneratedFileV { path: path@, content: content@ },
        ),
{
    let ghost before = files.deep_view();
    let ghost entry = GeneratedFileV { path: path@, content: content@ };
    files.push(GeneratedFile { path, content });
    proof {
        assert(files.deep_view() =~= before.push(entry));
    }
}

/// Joins a project name, a fixed middle part, a derived name and a fixed
/// ending into one path.
fn make_path(project: &str, middle: &str, name: &str, ending: &str) -> (r: String)
    ensures
        r@ == project@ + middle@ + name@ + ending@,
{
    let mut r = String::new();
    r.append(project);
    r.append(middle);
    r.append(name);
    r.append(ending);
    proof {
        assert(r@ =~= project@ + middle@ + name@ + ending@);
    }
    r
}

/// The module names of all models, per shape.
#[verifier::loop_isolation(false)]
fn model_names(models: &Vec<Model>, kind: ModelNameKind) -> (r: Vec<String>)
    ensures
        r.deep_view() == model_names_spec(models.deep_view(), kind),
{
    let ghost ms = models.deep_view();
    let mut names: Vec<String> = Vec::new();
    let mut i: usize = 0;
    while i < models.len()
        invariant
            i <= models@.len(),
            names.deep_view() =~= ms.take(i as int).map_values(
                |m: ModelV| model_name_spec(m, kind),
            ),
        decreases models@.len() - i,
    {
        proof {
            assert(ms[i as int] == models@[i as int].deep_view());
        }
        let lower = ascii_lower(models[i].name.as_str());
        let name = match kind {
            ModelNameKind::Lower => lower,
            ModelNameKind::Repository => {
                let mut n = lower;
                n.append("_repository");
                n
            },
            ModelNameKind::Service => {
                let mut n = lower;
                n.append("_service");
                n
            },
            ModelNameKind::SqlxRepository => {
                let mut n = crate::text::str_owned("sqlx_");
                n.append(lower.as_str());
                n.append("_repository");
                n
            },
        };
        proof {
            assert(name@ =~= model_name_spec(ms[i as int], kind));
        }
        let ghost before = names.deep_view();
        names.push(name);
        proof {
            assert(names.deep_view() =~= before.push(model_name_spec(ms[i as int], kind)));
            assert(ms.take(i + 1).map_values(|m: ModelV| model_name_spec(m, kind)) =~= before.push(
                model_name_spec(ms[i as int], kind),
            ));
        }
        i = i + 1;
    }
    proof {
        assert(ms.take(models@.len() as int) =~= ms);
    }
    names
}

/// The middleware module names of the declared blocks.
#[verifier::loop_isolation(false)]
fn middleware_names(middlewares: &Option<Vec<Middleware>>) -> (r: Vec<String>)
    ensures
        r.deep_view() == middleware_names_spec(declared_middlewares(middlewares.deep_view())),
{
    let mut names: Vec<String> = Vec::new();
    match middlewares {
        None => {
            proof {
                assert(names.deep_view() =~= middleware_names_spec(
                    declared_middlewares(middlewares.deep_view()),
                ));
            }
        },
        Some(blocks) => {
            let ghost bs = blocks.deep_view();
            let mut i: usize = 0;
            while i < blocks.len()
                invariant
                    i <= blocks@.len(),
                    names.deep_view() =~= middleware_names_spec(bs.take(i as int)),
                decreases blocks@.len() - i,
            {
                proof {
                    assert(bs[i as int] == blocks@[i as int].deep_view());
                }
                let mut n = ascii_lower(blocks[i].model.as_str());
                n.append("_middleware");
                let ghost before = names.deep_view();
                names.push(n);
                proof {
                    assert(names.deep_view() =~= before.push(
                        lower_spec(bs[i as int].model) + "_middleware"@,
                    ));
                    assert(middleware_names_spec(bs.take(i + 1)) =~= before.push(
                        lower_spec(bs[i as int].model) + "_middleware"@,
                    ));
                }
                i = i + 1;
            }
            proof {
                assert(bs.take(blocks@.len() as int) =~= bs);
            }
        },
    }
    names
}

/// Joins a project name and a fixed ending into one path.
fn path2(project: &str, ending: &str) -> (r: String)
    ensures
        r@ == project@ + ending@,
{
    let mut r = String::new();
    r.append(project);
    r.append(ending);
    proof {
        assert(r@ =~= project@ + ending@);
    }
    r
}

/// Renders the content of an aggregation file.
#[verifier::loop_isolation(false)]
fn mod_rs_content(file_names: &[String]) -> (r: String)
    ensures
        r@ == mod_rs_content_spec(file_names.deep_view()),
{
    let ghost ns = file_names.deep_view();
    let mut r = String::new();
    let mut i: usize = 0;
    while i < file_names.len()
        invariant
            i <= file_names@.len(),
            r@ == mod_rs_content_spec(ns.take(i as int)),
        decreases file_names@.len() - i,
    {
        proof {
            assert(ns[i as int] == file_names@[i as int]@);
        }
        let name = vstd::slice::slice_index_get(file_names, i);
        r.append("pub mod ");
        r.append(name.as_str());
        r.append(";\npub use ");
        r.append(name.as_str());
        r.append("::*;\n\n");
        proof {
            assert(ns.take(i + 1).drop_last() =~= ns.take(i as int));
            assert(ns.take(i + 1).last() == ns[i as int]);
            assert(r@ =~= mod_rs_content_spec(ns.take(i + 1)));
        }
        i = i + 1;
    }
    proof {
        assert(ns.take(file_names@.len() as int) =~= ns);
    }
    r
}

/// Computes the whole output of one run: every directory and every artifact,
/// in order, after rejecting an invalid configuration.
#[verifier::loop_isolation(false)]
#[verifier::rlimit(100)]
pub fn plan_project(template: &Template) -> (r: Result<Plan, ConfigError>)
    ensures
        r is Ok <==> (first_config_error_spec(template.config.deep_view()) is None),
        (r matches Err(e) ==> first_config_error_spec(template.config.deep_view()) == Some(e)),
        (r matches Ok(p) ==> p.deep_view() == plan_spec(template.config.deep_view())),
{
    let config = &template.config;
    let ghost cv = config.deep_view();
    match validate_config(config) {
        Err(e) => {
            proof {
                assert(first_config_error_spec(cv) == Some(e));
            }
            return Err(e);
        },
        Ok(()) => {},
    }
    let project = config.project_name.as_str();
    let db = config.database_type.as_str();

    let mut dirs: Vec<String> = Vec::new();
    dirs.push(crate::text::str_owned(project));
    dirs.push(path2(project, "/src"));
    dirs.push(path2(project, "/src/domain"));
    dirs.push(path2(project, "/src/domain/models"));
    dirs.push(path2(project, "/src/domain/ports"));
    dirs.push(path2(project, "/src/application"));
    dirs.push(path2(project, "/src/application/services"));
    dirs.push(path2(project, "/src/infrastructure"));
    dirs.push(path2(project, "/src/infrastructure/repositories"));
    dirs.push(path2(project, "/src/adapters"));
    dirs.push(path2(project, "/src/adapters/http"));
    proof {
        assert(dirs.deep_view() =~= dirs_spec(cv));
    }

    let mut files: Vec<GeneratedFile> = Vec::new();
    push_file(
        &mut files,
        path2(project, "/Cargo.toml"),
        cargo_toml_content(project, db, false, &config.framework),
    );
    push_file(&mut files, path2(project, "/src/main.rs"), main_content(config));
    push_file(
        &mut files,
        path2(project, "/src/database_connection.rs"),
        database_connection_content(db),
    );
    push_file(&mut files, path2(project, "/.env"), env_content(config.database_url.as_str()));
    push_file(&mut files, path2(project, "/Dockerfile"), dockerfile_content(project));
    push_file(&mut files, path2(project, "/.dockerignore"), docker_ignore_content());
    push_file(&mut files, path2(project, "/.gitignore"), git_ignore_content());
    push_file(&mut files, path2(project, "/compose.yaml"), compose_yaml_content(db));

    let mut http_only: Vec<String> = Vec::new();
    http_only.push(crate::text::str_owned("http"));
    proof {
        assert(http_only.deep_view() =~= seq!["http"@]);
    }
    let mut domain_files: Vec<String> = Vec::new();
    domain_files.push(crate::text::str_owned("models"));
    domain_files.push(crate::text::str_owned("ports"));
    domain_files.push(crate::text::str_owned("error"));
    proof {
        assert(domain_files.deep_view() =~= seq!["models"@, "ports"@, "error"@]);
    }
    let mut application_files: Vec<String> = Vec::new();
    application_files.push(crate::text::str_owned("services"));
    proof {
        assert(application_files.deep_view() =~= seq!["services"@]);
    }
    let mut infrastructure_files: Vec<String> = Vec::new();
    infrastructure_files.push(crate::text::str_owned("repositories"));
    proof {
        assert(infrastructure_files.deep_view() =~= seq!["repositories"@]);
    }
    let model_files = model_names(&config.models, ModelNameKind::Lower);
    let port_files = model_names(&config.models, ModelNameKind::Repository);
    let service_files = model_names(&config.models, ModelNameKind::Service);
    let repo_files = model_names(&config.models, ModelNameKind::SqlxRepository);
    let middles_files = middleware_names(&config.middlewares);
    let ghost mids = middles_files.deep_view();
    let mut http_files: Vec<String> = Vec::new();
    http_files.push(crate::text::str_owned("http"));
    let mut k: usize = 0;
    while k < middles_files.len()
        invariant
            k <= middles_files@.len(),
            http_files.deep_view() =~= seq!["http"@] + mids.take(k as int),
        decreases middles_files@.len() - k,
    {
        proof {
            assert(mids[k as int] == middles_files@[k as int]@);
        }
        let ghost before = http_files.deep_view();
        http_files.push(crate::text::str_owned(middles_files[k].as_str()));
        proof {
            assert(http_files.deep_view() =~= before.push(mids[k as int]));
            assert(http_files.deep_view() =~= seq!["http"@] + mids.take(k + 1));
        }
        k = k + 1;
    }
    proof {
        assert(mids.take(middles_files@.len() as int) =~= mids);
    }

    push_file(
        &mut files,
        make_path(project, "/src/", "adapters/http", "/mod.rs"),
        mod_rs_content(http_only.as_slice()),
    );
    push_file(
        &mut files,
        make_path(project, "/src/", "domain", "/mod.rs"),
        mod_rs_content(domain_files.as_slice()),
    );
    push_file(
        &mut files,
        make_path(project, "/src/", "domain/models", "/mod.rs"),
        mod_rs_content(model_files.as_slice()),
    );
    push_file(
        &mut files,
        make_path(project, "/src/", "domain/ports", "/mod.rs"),
        mod_rs_content(port_files.as_slice()),
    );
    push_file(
        &mut files,
        make_path(project, "/src/", "application", "/mod.rs"),
        mod_rs_content(application_files.as_slice()),
    );
    push_file(
        &mut files,
        make_path(project, "/src/", "application/services", "/mod.rs"),
        mod_rs_content(service_files.as_slice()),
    );
    push_file(
        &mut files,
        make_path(project, "/src/", "infrastructure", "/mod.rs"),
        mod_rs_content(infrastructure_files.as_slice()),
    );
    push_file(
        &mut files,
        make_path(project, "/src/", "infrastructure/repositories", "/mod.rs"),
        mod_rs_content(repo_files.as_slice()),
    );
    push_file(
        &mut files,
        make_path(project, "/src/", "adapters/", "/mod.rs"),
        mod_rs_content(http_only.as_slice()),
    );
    push_file(
        &mut files,
        make_path(project, "/src/", "adapters/http", "/mod.rs"),
        mod_rs_content(http_files.as_slice()),
    );
    proof {
        assert(files.deep_view() =~= static_files_spec(cv));
    }

    let ghost ms = cv.models;
    let mut i: usize = 0;
    while i < config.models.len()
        invariant
            i <= config.models@.len(),
            files.deep_view() =~= static_files_spec(cv) + model_files_spec(
                cv.project_name,
                ms.take(i as int),
                cv.database_type,
            ),
        decreases config.models@.len() - i,
    {
        proof {
            assert(ms[i as int] == config.models@[i as int].deep_view());
            assert(ms.take(i + 1).drop_last() =~= ms.take(i as int));
            assert(ms.take(i + 1).last() == ms[i as int]);
        }
        let model = &config.models[i];
        let lower = ascii_lower(model.name.as_str());
        push_file(
            &mut files,
            make_path(project, "/src/domain/models/", lower.as_str(), ".rs"),
            template.generate_model_content(model),
        );
        push_file(
            &mut files,
            make_path(project, "/src/domain/ports/", lower.as_str(), "_repository.rs"),
            template.generate_repository_trait(model),
        );
        push_file(
            &mut files,
            make_path(
                project,
                "/src/infrastructure/repositories/sqlx_",
                lower.as_str(),
                "_repository.rs",
            ),
            template.generate_repository_impl(model, db),
        );
        push_file(
            &mut files,
            make_path(project, "/src/application/services/", lower.as_str(), "_service.rs"),
            template.generate_service(model),
        );
        proof {
            assert(files.deep_view() =~= static_files_spec(cv) + model_files_spec(
                cv.project_name,
                ms.take(i + 1),
                cv.database_type,
            ));
        }
        i = i + 1;
    }
    proof {
        assert(ms.take(config.models@.len() as int) =~= ms);
    }

    push_file(
        &mut files,
        path2(project, "/src/adapters/http/http.rs"),
        template.generate_http_content(),
    );

    let ghost after_http = files.deep_view();
    match &config.middlewares {
        None => {
            proof {
                assert(middleware_files_spec(
                    cv.project_name,
                    declared_middlewares(cv.middlewares),
                    cv.framework,
                ) =~= Seq::<GeneratedFileV>::empty());
            }
        },
        Some(middlewares) => {
            let ghost bs = middlewares.deep_view();
            let mut j: usize = 0;
            while j < middlewares.len()
                invariant
                    j <= middlewares@.len(),
                    files.deep_view() =~= after_http + middleware_files_spec(
                        cv.project_name,
                        bs.take(j as int),
                        cv.framework,
                    ),
                decreases middlewares@.len() - j,
            {
                proof {
                    assert(bs[j as int] == middlewares@[j as int].deep_view());
                    assert(bs.take(j + 1).drop_last() =~= bs.take(j as int));
                    assert(bs.take(j + 1).last() == bs[j as int]);
                }
                let lower = ascii_lower(middlewares[j].model.as_str());
                push_file(
                    &mut files,
                    make_path(project, "/src/adapters/http/", lower.as_str(), "_middleware.rs"),
                    template.generate_middleware_content(&middlewares[j], db),
                );
                proof {
                    assert(files.deep_view() =~= after_http + middleware_files_spec(
                        cv.project_name,
                        bs.take(j + 1),
                        cv.framework,
                    ));
                }
                j = j + 1;
            }
            proof {
                assert(bs.take(middlewares@.len() as int) =~= bs);
            }
        },
    }

    push_file(&mut files, path2(project, "/src/domain/error.rs"), template.generate_error_content());
    proof {
        assert(files.deep_view() =~= files_spec(cv));
    }
    Ok(Plan { dirs, files })
}

/// The materializer: owns the file-system port and orchestrates a run.
pub struct ProjectService<F: FileSystem> {
    pub file_system: F,
}

impl<F: FileSystem> ProjectService<F> {
    /// Wraps a file-system port.
    pub fn new(file_system: F) -> (r: ProjectService<F>)
        ensures
            r.file_system == file_system,
    {
        ProjectService { file_system }
    }

    /// Renders the content of an aggregation file: one declaration and one
    /// re-export per module name, in order.
    pub fn generate_mod_rs_content(&self, file_names: &[String]) -> (r: String)
        ensures
            r@ == mod_rs_content_spec(file_names.deep_view()),
    {
        mod_rs_content(file_names)
    }
}

impl<F: FileSystem> ProjectGenerator for ProjectService<F> {
    /// Materializes the project that `config` describes: validates the
    /// configuration, computes the plan, creates every directory and then
    /// writes every file through the port, stopping at the first failure.
    #[verifier::loop_isolation(false)]
    fn generate_project(&self, config: Config) -> (r: Result<(), GenError>)
        ensures
            r is Ok ==> (first_config_error_spec(config.deep_view()) is None),
            (r matches Err(GenError::Config(e)) ==> first_config_error_spec(config.deep_view())
                == Some(e)),
            (first_config_error_spec(config.deep_view()) matches Some(e) ==> r == Result::<
                (),
                GenError,
            >::Err(GenError::Config(e))),
    {
        let ghost cv = config.deep_view();
        let template = Template::new(config);
        let plan = match plan_project(&template) {
            Ok(p) => p,
            Err(e) => {
                return Err(GenError::Config(e));
            },
        };
        let mut i: usize = 0;
        while i < plan.dirs.len()
            invariant
                first_config_error_spec(cv) is None,
            decreases plan.dirs@.len() - i,
        {
            match self.file_system.create_dir_all(plan.dirs[i].as_str()) {
                Ok(_) => {},
                Err(e) => {
                    return Err(GenError::Io(e));
                },
            }
            i = i + 1;
        }
        let mut i: usize = 0;
        while i < plan.files.len()
            invariant
                first_config_error_spec(cv) is None,
            decreases plan.files@.len() - i,
        {
            match self.file_system.write_file(
                plan.files[i].path.as_str(),
                plan.files[i].content.as_str(),
            ) {
                Ok(_) => {},
                Err(e) => {
                    return Err(GenError::Io(e));
                },
            }
            i = i + 1;
        }
        Ok(())
    }
}

} // verus!
