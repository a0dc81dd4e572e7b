//! Naming and derivation rules.
//!
//! Every identifier used across the generated files (module segments, handler
//! names, service/repository field names, table aliases, pool type names) is
//! derived here, so that any two generators that need "the same" name
//! provably agree.

use vstd::prelude::*;
use vstd::string::StringExecFns;
use crate::text::str_eq;
use crate::text::strip_suffix;
use crate::text::strip_suffix_spec;

verus! {

/// Whether `c` is an ASCII upper-case letter.
pub open spec fn is_ascii_upper(c: char) -> bool {
    65 <= c as u32 <= 90
}

/// The ASCII lower-case counterpart of `c`; characters outside `A..=Z` are
/// kept as they are.
pub open spec fn lower_char_spec(c: char) -> char {
    if is_ascii_upper(c) {
        ((c as u32) + 32) as char
    } else {
        c
    }
}

/// `s` with every ASCII upper-case letter replaced by its lower-case
/// counterpart.
pub open spec fn lower_spec(s: Seq<char>) -> Seq<char> {
    s.map_values(|c: char| lower_char_spec(c))
}

/// The ASCII lower-case counterpart of a character.
pub fn lower_char(c: char) -> (r: char)
    ensures
        r == lower_char_spec(c),
{
    if 'A' <= c && c <= 'Z' {
        (((c as u32) + 32) as u8) as char
    } else {
        c
    }
}

/// Lower-cases every ASCII letter of `s`.
pub fn ascii_lower(s: &str) -> (r: String)
    ensures
        r@ == lower_spec(s@),
{
    let n = s.unicode_len();
    let mut r = String::new();
    let mut i: usize = 0;
    while i < n
        invariant
            n == s@.len(),
            i <= n,
            r@ == lower_spec(s@.take(i as int)),
        decreases n - i,
    {
        let c = s.get_char(i);
        let lc = lower_char(c);
        push_char(&mut r, lc);
        proof {
            assert(lower_spec(s@.take(i + 1)) =~= lower_spec(s@.take(i as int)).push(
                lower_char_spec(s@[i as int]),
            ));
        }
        i = i + 1;
    }
    proof {
        assert(s@.take(n as int) =~= s@);
    }
    r
}

/// Appends one character to a string.
///
/// Relies on `String::push` of std: appends the given character to the end of
/// the string.
#[verifier::external_body]
pub(crate) fn push_char(s: &mut String, c: char)
    ensures
        final(s)@ == old(s)@.push(c),
{
    s.push(c)
}

/// The characters a single URL path character contributes to a handler name:
/// separators become underscores, an opening brace becomes a `by_` prefix for
/// the parameter name, and closing braces and colons vanish.
pub open spec fn handler_seg_spec(c: char) -> Seq<char> {
    if c == '/' {
        seq!['_']
    } else if c == ':' {
        Seq::empty()
    } else if c == '{' {
        seq!['b', 'y', '_']
    } else if c == '}' {
        Seq::empty()
    } else {
        seq![c]
    }
}

/// The handler-name rendering of a URL path.
pub open spec fn handler_path_spec(s: Seq<char>) -> Seq<char>
    decreases s.len(),
{
    if s.len() == 0 {
        Seq::empty()
    } else {
        handler_path_spec(s.drop_last()) + handler_seg_spec(s.last())
    }
}

/// The name of the handler generated for an endpoint: the lower-cased HTTP
/// method followed by the rendered path.
pub open spec fn handler_name_spec(method: Seq<char>, path: Seq<char>) -> Seq<char> {
    lower_spec(method) + handler_path_spec(path)
}

/// Renders a URL path as the identifier part of a handler name.
pub fn handler_path(path: &str) -> (r: String)
    ensures
        r@ == handler_path_spec(path@),
{
    let n = path.unicode_len();
    let mut r = String::new();
    let mut i: usize = 0;
    while i < n
        invariant
            n == path@.len(),
            i <= n,
            r@ == handler_path_spec(path@.take(i as int)),
        decreases n - i,
    {
        let c = path.get_char(i);
        if c == '/' {
            push_char(&mut r, '_');
        } else if c == ':' {
        } else if c == '{' {
            r.append("by_");
            proof {
                reveal_strlit("by_");
                assert(("by_")@ =~= seq!['b', 'y', '_']);
            }
        } else if c == '}' {
        } else {
            push_char(&mut r, c);
        }
        proof {
            assert(path@.take(i + 1).drop_last() =~= path@.take(i as int));
            assert(path@.take(i + 1).last() == path@[i as int]);
            assert(r@ =~= handler_path_spec(path@.take(i + 1)));
        }
        i = i + 1;
    }
    proof {
        assert(path@.take(n as int) =~= path@);
    }
    r
}

/// Derives the handler name for an endpoint from its HTTP method and path.
pub fn handler_name(method: &str, path: &str) -> (r: String)
    ensures
        r@ == handler_name_spec(method@, path@),
{
    let mut r = ascii_lower(method);
    let p = handler_path(path);
    r.append(p.as_str());
    r
}

/// The name of the application-state field holding a model's service.
pub open spec fn service_field_spec(model: Seq<char>) -> Seq<char> {
    lower_spec(model) + "_service"@
}

/// Derives the application-state field name for a model's service.
pub fn service_field(model: &str) -> (r: String)
    ensures
        r@ == service_field_spec(model@),
{
    let mut r = ascii_lower(model);
    r.append("_service");
    r
}

/// The base a middleware reference resolves to: the reference lower-cased,
/// with a trailing `middleware` (and a separating underscore) stripped.
pub open spec fn middleware_base_spec(name: Seq<char>) -> Seq<char> {
    strip_suffix_spec(strip_suffix_spec(lower_spec(name), "middleware"@), "_"@)
}

/// Resolves a middleware reference to its base name.
pub fn middleware_base(name: &str) -> (r: String)
    ensures
        r@ == middleware_base_spec(name@),
{
    let l = ascii_lower(name);
    let s = strip_suffix(l.as_str(), "middleware");
    strip_suffix(s.as_str(), "_")
}

/// The name of the middleware function generated for a base name.
pub open spec fn middleware_fn_spec(base: Seq<char>) -> Seq<char> {
    base + "_middleware"@
}

/// Derives the middleware function (and module) name from a base name.
pub fn middleware_fn_name(base: &str) -> (r: String)
    ensures
        r@ == middleware_fn_spec(base@),
{
    let mut r = base.to_owned();
    r.append("_middleware");
    r
}

/// The table alias derived from a model name: its ASCII upper-case letters,
/// in order.
pub open spec fn alias_spec(s: Seq<char>) -> Seq<char>
    decreases s.len(),
{
    if s.len() == 0 {
        Seq::empty()
    } else {
        alias_spec(s.drop_last()) + (if is_ascii_upper(s.last()) {
            seq![s.last()]
        } else {
            Seq::empty()
        })
    }
}

/// Whether a storage dialect tag is recognized by the repository generator.
pub open spec fn supported_dialect_spec(d: Seq<char>) -> bool {
    lower_spec(d) == "mysql"@ || lower_spec(d) == "postgres"@
}

/// The sqlx pool type spliced into repository artifacts for a supported
/// dialect.
pub open spec fn pool_type_spec(d: Seq<char>) -> Seq<char> {
    if lower_spec(d) == "mysql"@ {
        "sqlx::MySqlPool"@
    } else {
        "sqlx::PgPool"@
    }
}

/// Chooses the sqlx pool type for a storage dialect tag, or nothing when the
/// dialect is not recognized.
pub fn pool_type_for(d: &str) -> (r: Option<String>)
    ensures
        r is Some <==> supported_dialect_spec(d@),
        r matches Some(p) ==> p@ == pool_type_spec(d@),
{
    let l = ascii_lower(d);
    if str_eq(l.as_str(), "mysql") {
        Some("sqlx::MySqlPool".to_owned())
    } else if str_eq(l.as_str(), "postgres") {
        Some("sqlx::PgPool".to_owned())
    } else {
        None
    }
}

/// The pool type-name prefix chosen from a normalized dialect tag: `Sqlite`
/// and `MySql` for the matching tags, `Pg` for everything else.
pub open spec fn pool_prefix_spec(n: Seq<char>) -> Seq<char> {
    if n == "sqlite"@ {
        "Sqlite"@
    } else if n == "mysql"@ {
        "MySql"@
    } else {
        "Pg"@
    }
}

/// Chooses the pool type-name prefix from a normalized dialect tag.
pub fn pool_prefix(n: &str) -> (r: String)
    ensures
        r@ == pool_prefix_spec(n@),
{
    if str_eq(n, "sqlite") {
        "Sqlite".to_owned()
    } else if str_eq(n, "mysql") {
        "MySql".to_owned()
    } else {
        "Pg".to_owned()
    }
}

} // verus!
