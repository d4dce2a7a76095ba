//! Refusals: how a gate says no, and the messages that several gates share.

use vstd::prelude::*;

use crate::text::{decimal, decimal_text};

verus! {

/// The reason for which a gate refused, or `None` if it did not.
pub open spec fn refusal(r: Result<(), String>) -> Option<Seq<char>> {
    match r {
        Ok(_) => None,
        Err(reason) => Some(reason@),
    }
}

/// The first reason, or the second if there is no first.
pub open spec fn or_else(first: Option<Seq<char>>, second: Option<Seq<char>>) -> Option<Seq<char>> {
    match first {
        Some(reason) => Some(reason),
        None => second,
    }
}

/// `before`, then `value`, then `after`.
pub fn around(before: &str, value: &str, after: &str) -> (r: String)
    ensures
        r@ == before@ + value@ + after@,
{
    let mut out = String::new();
    out.append(before);
    out.append(value);
    out.append(after);
    out
}

/// `before`, then `value`.
pub fn prefixed(before: &str, value: &str) -> (r: String)
    ensures
        r@ == before@ + value@,
{
    let mut out = String::new();
    out.append(before);
    out.append(value);
    out
}

/// `Statement n: `, with statements counted from one.
pub open spec fn statement_label(index: nat) -> Seq<char> {
    "Statement "@ + decimal(index + 1) + ": "@
}

/// `Statement n: `, with statements counted from one.
pub fn label(statement_index: usize) -> (r: String)
    requires
        statement_index < usize::MAX,
    ensures
        r@ == statement_label(statement_index as nat),
{
    around("Statement ", decimal_text((statement_index + 1) as u64).as_str(), ": ")
}

/// The refusal of a whole class of statements.
pub open spec fn class_refused(index: nat, what: Seq<char>) -> Seq<char> {
    statement_label(index) + what + " is not allowed. Only SELECT queries are permitted."@
}

/// The refusal of a whole class of statements.
pub fn refused(statement_index: usize, what: &str) -> (r: String)
    requires
        statement_index < usize::MAX,
    ensures
        r@ == class_refused(statement_index as nat, what@),
{
    around(
        label(statement_index).as_str(),
        what,
        " is not allowed. Only SELECT queries are permitted.",
    )
}

/// The refusal of a blocked identifier.
pub open spec fn identifier_blocked(identifier: Seq<char>) -> Seq<char> {
    "Postgres introspection blocked. `"@ + identifier + "` is not available on this SQL surface."@
}

/// The refusal of a blocked identifier.
pub fn introspection_blocked(identifier: &str) -> (r: String)
    ensures
        r@ == identifier_blocked(identifier@),
{
    around(
        "Postgres introspection blocked. `",
        identifier,
        "` is not available on this SQL surface.",
    )
}

/// The refusal of a table-valued function.
pub open spec fn table_function_refused(name: Seq<char>) -> Seq<char> {
    "Table-valued function `"@ + name + "` is not allowed on this SQL surface."@
}

/// The refusal of a table-valued function.
pub fn table_function_error(name: &str) -> (r: String)
    ensures
        r@ == table_function_refused(name@),
{
    around("Table-valued function `", name, "` is not allowed on this SQL surface.")
}

} // verus!
