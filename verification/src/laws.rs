//! The cross-cutting guarantees of the generation engine, stated and proved
//! over the artifact specifications.

use vstd::prelude::*;
use crate::application::project_service::plan_spec;
use crate::application::project_service::PlanV;
use crate::domain::config::ConfigV;
use crate::domain::config::EndpointV;
use crate::domain::config::Framework;
use crate::domain::config::ModelV;
use crate::domain::template::app_state_field_line_spec;
use crate::domain::template::http_content_spec;
use crate::domain::template::model_content_spec;
use crate::domain::template::repository_impl_spec;
use crate::domain::template::repository_trait_spec;
use crate::domain::template::router_spec;
use crate::domain::template::service_spec;
use crate::naming::lower_spec;
use crate::naming::pool_type_spec;
use crate::naming::service_field_spec;
use crate::output::http_content::collection_path_spec;
use crate::output::http_content::generate_handler_spec;
use crate::output::http_content::handler_body_spec;
use crate::output::http_content::json_type_spec;
use crate::output::main_content::main_content_spec;

verus! {

/// Determinism: the whole output of a generation run is a function of the
/// configuration alone, so two runs over the same configuration produce
/// byte-identical directories and artifacts.
pub proof fn lemma_generation_deterministic(c: ConfigV, p1: PlanV, p2: PlanV)
    requires
        p1 == plan_spec(c),
        p2 == plan_spec(c),
    ensures
        p1 == p2,
{
}

/// Name agreement: the field name through which a generated handler reaches
/// a model's service is exactly the field name the application-state
/// generator declares for that model — both splice the one derived name
/// `<lower(model)>_service`.
pub proof fn lemma_name_agreement(m: ModelV, e: EndpointV, f: Framework)
    requires
        lower_spec(e.method) == "get"@,
        e.path == collection_path_spec(m),
    ensures
        handler_body_spec(m, e, f) == "let items = state."@ + service_field_spec(m.name)
            + ".get_all().await?;\nOk("@ + json_type_spec(f) + "(items))"@,
        app_state_field_line_spec(m) == "    pub "@ + service_field_spec(m.name)
            + ": Arc<services::"@ + m.name + "Service<Sqlx"@ + m.name + "Repository>>,\n"@,
{
}

/// Whether two configurations agree on everything but the storage dialect.
pub open spec fn same_but_dialect(c1: ConfigV, c2: ConfigV) -> bool {
    &&& c2.project_name == c1.project_name
    &&& c2.database_url == c1.database_url
    &&& c2.models == c1.models
    &&& c2.middlewares == c1.middlewares
    &&& c2.framework == c1.framework
}

/// Dialect parameterization: changing only the storage dialect leaves the
/// domain-model, repository-interface, service, HTTP-server, route-table and
/// bootstrap artifacts byte-identical; the repository implementation is a
/// function of the model and the dialect tag alone, and two dialect tags
/// that agree after lower-casing yield the same pool type token.
pub proof fn lemma_dialect_parameterization(c1: ConfigV, c2: ConfigV)
    requires
        same_but_dialect(c1, c2),
    ensures
        main_content_spec(c1) == main_content_spec(c2),
        http_content_spec(c1) == http_content_spec(c2),
        router_spec(c1) == router_spec(c2),
        forall|i: int|
            0 <= i < c1.models.len() ==> model_content_spec(c1.models[i]) == model_content_spec(
                c2.models[i],
            ) && repository_trait_spec(c1.models[i]) == repository_trait_spec(c2.models[i])
                && service_spec(c1.models[i]) == service_spec(c2.models[i]),
        lower_spec(c1.database_type) == lower_spec(c2.database_type) ==> pool_type_spec(
            c1.database_type,
        ) == pool_type_spec(c2.database_type),
{
}

/// Whether two configurations agree on everything but the framework tag.
pub open spec fn same_but_framework(c1: ConfigV, c2: ConfigV) -> bool {
    &&& c2.project_name == c1.project_name
    &&& c2.database_url == c1.database_url
    &&& c2.database_type == c1.database_type
    &&& c2.models == c1.models
    &&& c2.middlewares == c1.middlewares
}

/// Framework parameterization: changing only the framework tag leaves the
/// domain-model, repository-interface, repository-implementation, service
/// and bootstrap artifacts byte-identical; only the HTTP-facing artifacts
/// follow the framework, each handler keeping the same derived names.
pub proof fn lemma_framework_parameterization(c1: ConfigV, c2: ConfigV)
    requires
        same_but_framework(c1, c2),
    ensures
        main_content_spec(c1) == main_content_spec(c2),
        forall|i: int|
            0 <= i < c1.models.len() ==> model_content_spec(c1.models[i]) == model_content_spec(
                c2.models[i],
            ) && repository_trait_spec(c1.models[i]) == repository_trait_spec(c2.models[i])
                && repository_impl_spec(c1.models[i], c1.database_type) == repository_impl_spec(
                c2.models[i],
                c2.database_type,
            ) && service_spec(c1.models[i]) == service_spec(c2.models[i]),
        c1.framework == c2.framework ==> http_content_spec(c1) == http_content_spec(c2),
{
}

/// Handlers are a function of the model, the endpoint and the framework
/// alone: the same endpoint under the same framework always yields the same
/// handler artifact, whatever the rest of the configuration holds.
pub proof fn lemma_handler_independent(m: ModelV, e: EndpointV, f: Framework, h1: Seq<char>, h2: Seq<char>)
    requires
        h1 == generate_handler_spec(m, e, f),
        h2 == generate_handler_spec(m, e, f),
    ensures
        h1 == h2,
{
}

} // verus!
