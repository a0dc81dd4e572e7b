//! Configuration validation.
//!
//! A generation run is rejected before any artifact is produced when the
//! storage dialect is not recognized, when two endpoints of one model derive
//! the same handler name, or when a middleware reference of an endpoint does
//! not resolve to a declared middleware block.

use vstd::prelude::*;
use crate::domain::config::Config;
use crate::domain::config::ConfigV;
use crate::domain::config::EndpointV;
use crate::domain::config::Middleware;
use crate::domain::config::MiddlewareV;
use crate::domain::config::Model;
use crate::naming::ascii_lower;
use crate::naming::handler_name;
use crate::naming::handler_name_spec;
use crate::naming::lower_spec;
use crate::naming::middleware_base;
use crate::naming::middleware_base_spec;
use crate::naming::pool_type_for;
use crate::naming::supported_dialect_spec;
use crate::text::str_eq;

verus! {

/// The ways a configuration can be rejected.
#[derive(Clone, Copy, Debug, PartialEq, Eq, Structural)]
pub enum ConfigError {
    /// The storage dialect tag is not recognized.
    UnsupportedDialect,
    /// Two endpoints of one model derive the same handler name.
    DuplicateHandler,
    /// A middleware reference of an endpoint resolves to no declared
    /// middleware block.
    UnknownMiddleware,
}

/// The endpoints a model declares, or none.
pub open spec fn endpoints_of(m: crate::domain::config::ModelV) -> Seq<EndpointV> {
    match m.endpoints {
        Some(es) => es,
        None => Seq::empty(),
    }
}

/// The middleware blocks a configuration declares, or none.
pub open spec fn declared_middlewares(o: Option<Seq<MiddlewareV>>) -> Seq<MiddlewareV> {
    match o {
        Some(ms) => ms,
        None => Seq::empty(),
    }
}

/// The handler name an endpoint derives.
pub open spec fn endpoint_handler_spec(e: EndpointV) -> Seq<char> {
    handler_name_spec(e.method, e.path)
}

/// Whether one model declares two endpoints whose derived handler names
/// collide.
pub open spec fn model_has_dup_spec(m: crate::domain::config::ModelV) -> bool {
    exists|j: int, k: int|
        0 <= j < k < endpoints_of(m).len() && endpoint_handler_spec(endpoints_of(m)[j])
            == endpoint_handler_spec(endpoints_of(m)[k])
}

/// Whether any model of the configuration has colliding handler names.
pub open spec fn has_duplicate_handler_spec(c: ConfigV) -> bool {
    exists|i: int| 0 <= i < c.models.len() && model_has_dup_spec(c.models[i])
}

/// Whether a middleware reference resolves to a declared middleware block:
/// its stripped base must equal the lower-cased model name of some block.
pub open spec fn ref_resolves_spec(name: Seq<char>, o: Option<Seq<MiddlewareV>>) -> bool {
    exists|i: int|
        0 <= i < declared_middlewares(o).len() && lower_spec(declared_middlewares(o)[i].model)
            == middleware_base_spec(name)
}

/// The middleware references an endpoint carries, or none.
pub open spec fn refs_of(e: EndpointV) -> Seq<Seq<char>> {
    match e.middlewares {
        Some(rs) => rs,
        None => Seq::empty(),
    }
}

/// Whether every middleware reference of every endpoint resolves.
pub open spec fn all_refs_resolve_spec(c: ConfigV) -> bool {
    forall|i: int, j: int, k: int|
        0 <= i < c.models.len() && 0 <= j < endpoints_of(c.models[i]).len() && 0 <= k < refs_of(
            endpoints_of(c.models[i])[j],
        ).len() ==> ref_resolves_spec(refs_of(endpoints_of(c.models[i])[j])[k], c.middlewares)
}

/// Whether a configuration passes every check that generation requires.
pub open spec fn valid_config_spec(c: ConfigV) -> bool {
    &&& supported_dialect_spec(c.database_type)
    &&& !has_duplicate_handler_spec(c)
    &&& all_refs_resolve_spec(c)
}

/// Whether any two strings of `v` at distinct positions are equal.
pub open spec fn has_dup_str_spec(v: Seq<Seq<char>>) -> bool {
    exists|j: int, k: int| 0 <= j < k < v.len() && v[j] == v[k]
}

/// Looks for two equal strings at distinct positions.
fn has_dup_str(v: &Vec<String>) -> (r: bool)
    ensures
        r == has_dup_str_spec(v.deep_view()),
{
    let ghost dv = v.deep_view();
    let mut k: usize = 0;
    while k < v.len()
        invariant
            dv == v.deep_view(),
            dv.len() == v@.len(),
            k <= v@.len(),
            forall|j2: int, k2: int| 0 <= j2 < k2 < k ==> dv[j2] != dv[k2],
        decreases v@.len() - k,
    {
        let mut j: usize = 0;
        while j < k
            invariant
                dv == v.deep_view(),
                dv.len() == v@.len(),
                k < v@.len(),
                j <= k,
                forall|j2: int| 0 <= j2 < j ==> dv[j2] != dv[k as int],
            decreases k - j,
        {
            if str_eq(v[j].as_str(), v[k].as_str()) {
                proof {
                    assert(dv[j as int] == v@[j as int].deep_view());
                    assert(dv[k as int] == v@[k as int].deep_view());
                }
                return true;
            }
            j = j + 1;
        }
        k = k + 1;
    }
    false
}

/// Whether two endpoints of `model` derive the same handler name.
fn model_has_dup(model: &Model) -> (r: bool)
    ensures
        r == model_has_dup_spec(model.deep_view()),
{
    let ghost es = endpoints_of(model.deep_view());
    let mut names: Vec<String> = Vec::new();
    match &model.endpoints {
        None => {
            proof {
                assert(!model_has_dup_spec(model.deep_view()));
            }
            false
        },
        Some(endpoints) => {
            let mut i: usize = 0;
            while i < endpoints.len()
                invariant
                    es == endpoints_of(model.deep_view()),
                    es == endpoints.deep_view(),
                    es.len() == endpoints@.len(),
                    i <= endpoints@.len(),
                    names.deep_view().len() == i as int,
                    forall|j: int|
                        0 <= j < i ==> names.deep_view()[j] == endpoint_handler_spec(es[j]),
                decreases endpoints@.len() - i,
            {
                let n = handler_name(endpoints[i].method.as_str(), endpoints[i].path.as_str());
                let ghost old_names = names.deep_view();
                names.push(n);
                proof {
                    assert(names.deep_view() =~= old_names.push(n@));
                    assert(es[i as int] == endpoints@[i as int].deep_view());
                    assert(n@ == endpoint_handler_spec(es[i as int]));
                }
                i = i + 1;
            }
            let r = has_dup_str(&names);
            proof {
                let nv = names.deep_view();
                if r {
                    let (j, k) = choose|j: int, k: int|
                        0 <= j < k < nv.len() && nv[j] == nv[k];
                    assert(endpoint_handler_spec(es[j]) == endpoint_handler_spec(es[k]));
                } else {
                    if model_has_dup_spec(model.deep_view()) {
                        let (j, k) = choose|j: int, k: int|
                            0 <= j < k < es.len() && endpoint_handler_spec(es[j])
                                == endpoint_handler_spec(es[k]);
                        assert(nv[j] == nv[k]);
                    }
                }
            }
            r
        },
    }
}

/// Whether a middleware reference resolves against the declared blocks.
#[verifier::loop_isolation(false)]
fn ref_resolves(name: &str, mws: &Option<Vec<Middleware>>) -> (r: bool)
    ensures
        r == ref_resolves_spec(name@, mws.deep_view()),
{
    let base = middleware_base(name);
    match mws {
        None => false,
        Some(blocks) => {
            let ghost bs = blocks.deep_view();
            let mut i: usize = 0;
            while i < blocks.len()
                invariant
                    bs == blocks.deep_view(),
                    bs.len() == blocks@.len(),
                    i <= blocks@.len(),
                    base@ == middleware_base_spec(name@),
                    forall|j: int| 0 <= j < i ==> lower_spec(bs[j].model) != middleware_base_spec(name@),
                decreases blocks@.len() - i,
            {
                let l = ascii_lower(blocks[i].model.as_str());
                proof {
                    assert(bs[i as int] == blocks@[i as int].deep_view());
                }
                if str_eq(l.as_str(), base.as_str()) {
                    proof {
                        assert(declared_middlewares(mws.deep_view()) == bs);
                        assert(lower_spec(declared_middlewares(mws.deep_view())[i as int].model)
                            == middleware_base_spec(name@));
                    }
                    return true;
                }
                i = i + 1;
            }
            false
        },
    }
}

/// Checks a configuration and names the first problem found: an unrecognized
/// dialect, then colliding handler names, then an unresolved middleware
/// reference.
#[verifier::loop_isolation(false)]
pub fn validate_config(config: &Config) -> (r: Result<(), ConfigError>)
    ensures
        r is Ok <==> valid_config_spec(config.deep_view()),
        r == Result::<(), ConfigError>::Err(ConfigError::UnsupportedDialect) <==> !supported_dialect_spec(
            config.deep_view().database_type,
        ),
        r == Result::<(), ConfigError>::Err(ConfigError::DuplicateHandler) <==> (
        supported_dialect_spec(config.deep_view().database_type) && has_duplicate_handler_spec(
            config.deep_view(),
        )),
        r == Result::<(), ConfigError>::Err(ConfigError::UnknownMiddleware) <==> (
        supported_dialect_spec(config.deep_view().database_type) && !has_duplicate_handler_spec(
            config.deep_view(),
        ) && !all_refs_resolve_spec(config.deep_view())),
{
    let ghost cv = config.deep_view();
    if pool_type_for(config.database_type.as_str()).is_none() {
        return Err(ConfigError::UnsupportedDialect);
    }
    let mut i: usize = 0;
    while i < config.models.len()
        invariant
            cv == config.deep_view(),
            cv.models.len() == config.models@.len(),
            i <= config.models@.len(),
            forall|i2: int| 0 <= i2 < i ==> !model_has_dup_spec(cv.models[i2]),
        decreases config.models@.len() - i,
    {
        proof {
            assert(cv.models[i as int] == config.models@[i as int].deep_view());
        }
        if model_has_dup(&config.models[i]) {
            proof {
                assert(has_duplicate_handler_spec(cv));
            }
            return Err(ConfigError::DuplicateHandler);
        }
        i = i + 1;
    }
    proof {
        if has_duplicate_handler_spec(cv) {
            let i2 = choose|i2: int| 0 <= i2 < cv.models.len() && model_has_dup_spec(cv.models[i2]);
            assert(!model_has_dup_spec(cv.models[i2]));
        }
    }
    let mut i: usize = 0;
    while i < config.models.len()
        invariant
            cv == config.deep_view(),
            cv.models.len() == config.models@.len(),
            i <= config.models@.len(),
            forall|i2: int, j: int, k: int|
                0 <= i2 < i && 0 <= j < endpoints_of(cv.models[i2]).len() && 0 <= k < refs_of(
                    endpoints_of(cv.models[i2])[j],
                ).len() ==> ref_resolves_spec(
                    refs_of(endpoints_of(cv.models[i2])[j])[k],
                    cv.middlewares,
                ),
        decreases config.models@.len() - i,
    {
        proof {
            assert(cv.models[i as int] == config.models@[i as int].deep_view());
        }
        match &config.models[i].endpoints {
            None => {},
            Some(endpoints) => {
                let ghost es = endpoints.deep_view();
                let mut j: usize = 0;
                while j < endpoints.len()
                    invariant
                        cv == config.deep_view(),
                        i < config.models@.len(),
                        cv.models.len() == config.models@.len(),
                        es == endpoints.deep_view(),
                        es == endpoints_of(cv.models[i as int]),
                        es.len() == endpoints@.len(),
                        j <= endpoints@.len(),
                        forall|j2: int, k: int|
                            0 <= j2 < j && 0 <= k < refs_of(es[j2]).len() ==> ref_resolves_spec(
                                refs_of(es[j2])[k],
                                cv.middlewares,
                            ),
                    decreases endpoints@.len() - j,
                {
                    match &endpoints[j].middlewares {
                        None => {},
                        Some(refs) => {
                            let ghost rs = refs.deep_view();
                            let mut k: usize = 0;
                            while k < refs.len()
                                invariant
                                    cv == config.deep_view(),
                                    rs == refs.deep_view(),
                                    rs == refs_of(es[j as int]),
                                    j < es.len(),
                                    rs.len() == refs@.len(),
                                    k <= refs@.len(),
                                    forall|k2: int|
                                        0 <= k2 < k ==> ref_resolves_spec(rs[k2], cv.middlewares),
                                decreases refs@.len() - k,
                            {
                                if !ref_resolves(refs[k].as_str(), &config.middlewares) {
                                    proof {
                                        assert(rs[k as int] == refs@[k as int].deep_view());
                                        assert(!ref_resolves_spec(
                                            refs_of(endpoints_of(cv.models[i as int])[j as int])[k as int],
                                            cv.middlewares,
                                        ));
                                        assert(!all_refs_resolve_spec(cv));
                                    }
                                    return Err(ConfigError::UnknownMiddleware);
                                }
                                k = k + 1;
                            }
                        },
                    }
                    j = j + 1;
                }
            },
        }
        i = i + 1;
    }
    Ok(())
}

/// Handler-name uniqueness: two distinct endpoints of one model that share a
/// method and a path derive the same handler name, so such a configuration is
/// never accepted.
pub proof fn lemma_duplicate_handler_rejected(c: ConfigV, i: int, j: int, k: int)
    requires
        0 <= i < c.models.len(),
        0 <= j < k < endpoints_of(c.models[i]).len(),
        endpoints_of(c.models[i])[j].method == endpoints_of(c.models[i])[k].method,
        endpoints_of(c.models[i])[j].path == endpoints_of(c.models[i])[k].path,
    ensures
        !valid_config_spec(c),
{
    assert(endpoint_handler_spec(endpoints_of(c.models[i])[j]) == endpoint_handler_spec(
        endpoints_of(c.models[i])[k],
    ));
    assert(model_has_dup_spec(c.models[i]));
}

} // verus!
