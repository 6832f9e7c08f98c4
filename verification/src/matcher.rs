//! Receiver type matcher: does a call's receiver denote a database
//! connection, pool, transaction or query-builder value?

use vstd::prelude::*;

verus! {

use crate::site::TypeDescriptor;
use crate::text::has_substring;
use crate::text::str_contains;

/// The fixed markers a database-related type's rendered text is expected
/// to carry: namespace prefixes of known database client libraries, and
/// the generic role names "Pool", "Connection" and "Transaction". The set
/// is configuration of this matcher alone, independent of the operation
/// classifier's set.
///
/// Matching is substring-based and case-sensitive, deliberately permissive
/// (a superset match), because exact structural type matching is not
/// guaranteed available from every host: this trades precision for recall.
/// In particular the generic role names also match unrelated abstractions
/// using the same vocabulary (e.g. a network connection pool); that
/// tradeoff is accepted rather than silently tightened.
pub open spec fn is_database_descriptor(text: Seq<char>) -> bool {
    ||| has_substring(text, "sqlx::"@)
    ||| has_substring(text, "diesel::"@)
    ||| has_substring(text, "tokio_postgres::"@)
    ||| has_substring(text, "rusqlite::"@)
    ||| has_substring(text, "sea_orm::"@)
    ||| has_substring(text, "Pool"@)
    ||| has_substring(text, "Connection"@)
    ||| has_substring(text, "Transaction"@)
}

/// Does the descriptor's rendered text carry any configured database
/// marker?
pub fn is_database_type(descriptor: &TypeDescriptor) -> (is_database: bool)
    ensures
        is_database == is_database_descriptor(descriptor@),
{
    let text = descriptor.as_text();
    str_contains(text, "sqlx::") || str_contains(text, "diesel::") || str_contains(
        text,
        "tokio_postgres::",
    ) || str_contains(text, "rusqlite::") || str_contains(text, "sea_orm::") || str_contains(
        text,
        "Pool",
    ) || str_contains(text, "Connection") || str_contains(text, "Transaction")
}

} // verus!
