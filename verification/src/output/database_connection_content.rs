//! The generated database-connection module.

use vstd::prelude::*;
use vstd::string::StringExecFns;
use crate::casing::to_upper_camel;
use crate::casing::upper_camel_of;
use crate::naming::ascii_lower;
use crate::naming::lower_spec;
use crate::naming::pool_prefix;
use crate::naming::pool_prefix_spec;

verus! {

/// The pool type-name prefix the connection module uses for a dialect tag:
/// the tag is normalized through its UpperCamel rendering and lower-cased
/// before the three-way choice.
pub open spec fn connection_pool_prefix_spec(database_type: Seq<char>) -> Seq<char> {
    pool_prefix_spec(lower_spec(upper_camel_of(database_type)))
}

/// The text of the generated connection module: an async constructor reading
/// the database URL from the environment and connecting the dialect's pool.
pub open spec fn database_connection_content_spec(database_type: Seq<char>) -> Seq<char> {
    "\nuse dotenvy::dotenv;\nuse sqlx::*;\nuse std::env;\n\npub async fn connect_to_database() -> Result<"@
        + connection_pool_prefix_spec(database_type)
        + "Pool, sqlx::Error> {\n    dotenv().ok();\n    let database_url = env::var(\"DATABASE_URL\").expect(\"Env var unavailable\");\n    "@
        + connection_pool_prefix_spec(database_type) + "Pool::connect(&database_url).await\n}\n        "@
}

/// Renders the database-connection module for a storage dialect tag.
pub fn database_connection_content(database_type: &str) -> (r: String)
    ensures
        r@ == database_connection_content_spec(database_type@),
{
    let camel = to_upper_camel(database_type);
    let normalized = ascii_lower(camel.as_str());
    let pool = pool_prefix(normalized.as_str());
    let mut r = String::new();
    r.append(
        "\nuse dotenvy::dotenv;\nuse sqlx::*;\nuse std::env;\n\npub async fn connect_to_database() -> Result<",
    );
    r.append(pool.as_str());
    r.append(
        "Pool, sqlx::Error> {\n    dotenv().ok();\n    let database_url = env::var(\"DATABASE_URL\").expect(\"Env var unavailable\");\n    ",
    );
    r.append(pool.as_str());
    r.append("Pool::connect(&database_url).await\n}\n        ");
    proof {
        assert(r@ =~= database_connection_content_spec(database_type@));
    }
    r
}

} // verus!
