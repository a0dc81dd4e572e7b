//! The generated compose descriptor for the development database.

use vstd::prelude::*;
use crate::naming::ascii_lower;
use crate::naming::lower_spec;
use crate::text::str_eq;
use crate::text::str_owned;

verus! {

/// The compose descriptor for a MySQL development database.
pub open spec fn compose_mysql_spec() -> Seq<char> {
    "\nversion: '3.8'\nservices:\n  db:\n    image: mysql:8.0\n    environment:\n      MYSQL_ROOT_PASSWORD: root\n      MYSQL_DATABASE: test_db\n    ports:\n      - \"3306:3306\"\n"@
}

/// The compose descriptor for a PostgreSQL development database.
pub open spec fn compose_postgres_spec() -> Seq<char> {
    "\nversion: '3.8'\nservices:\n  db:\n    image: postgres:15\n    environment:\n      POSTGRES_PASSWORD: root\n      POSTGRES_DB: test_db\n    ports:\n      - \"5432:5432\"\n"@
}

/// The text of the generated compose descriptor: the MySQL variant for the
/// `mysql` dialect tag, the PostgreSQL variant for every other tag.
pub open spec fn compose_yaml_content_spec(database_type: Seq<char>) -> Seq<char> {
    if lower_spec(database_type) == "mysql"@ {
        compose_mysql_spec()
    } else {
        compose_postgres_spec()
    }
}

/// Renders the compose descriptor for a storage dialect tag.
pub fn compose_yaml_content(database_type: &str) -> (r: String)
    ensures
        r@ == compose_yaml_content_spec(database_type@),
{
    let l = ascii_lower(database_type);
    if str_eq(l.as_str(), "mysql") {
        str_owned(
            "\nversion: '3.8'\nservices:\n  db:\n    image: mysql:8.0\n    environment:\n      MYSQL_ROOT_PASSWORD: root\n      MYSQL_DATABASE: test_db\n    ports:\n      - \"3306:3306\"\n",
        )
    } else {
        str_owned(
            "\nversion: '3.8'\nservices:\n  db:\n    image: postgres:15\n    environment:\n      POSTGRES_PASSWORD: root\n      POSTGRES_DB: test_db\n    ports:\n      - \"5432:5432\"\n",
        )
    }
}

} // verus!
