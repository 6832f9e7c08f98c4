//! Operation classifier: does a call's operation name denote a data-fetch
//! or execute action?

use vstd::prelude::*;

verus! {

use crate::text::str_eq;

/// The fixed vocabulary of query-operation names: canonical names for
/// running a query, fetching one, all, or an optional row, executing a
/// mutation, and preparing a statement. Extending the rule to a new
/// database driver's vocabulary means extending this set. Matching is
/// exact and case-sensitive, independent of the containing type; false
/// positives on unrelated methods sharing these names are accepted and
/// left to the receiver type matcher to suppress.
pub open spec fn is_query_operation(name: Seq<char>) -> bool {
    ||| name == "query"@
    ||| name == "query_as"@
    ||| name == "execute"@
    ||| name == "fetch_one"@
    ||| name == "fetch_all"@
    ||| name == "fetch_optional"@
    ||| name == "prepare"@
    ||| name == "prepare_with"@
}

/// Membership test of `name` in the query-operation set.
pub fn is_query_method(name: &str) -> (is_query: bool)
    ensures
        is_query == is_query_operation(name@),
{
    str_eq(name, "query") || str_eq(name, "query_as") || str_eq(name, "execute") || str_eq(
        name,
        "fetch_one",
    ) || str_eq(name, "fetch_all") || str_eq(name, "fetch_optional") || str_eq(name, "prepare")
        || str_eq(name, "prepare_with")
}

} // verus!
