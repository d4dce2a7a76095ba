//! What function calls stand in an expression: set-returning functions,
//! bounded table functions, and arguments that carry subqueries.

use vstd::prelude::*;

use crate::policy::{Policy, PolicyModel};
use crate::text::{
    eq_ignore_case, join, joined, list_has, lower, same_ignoring_case, texts, to_lower,
};
use crate::tree::{
    ArgumentsKind, ExprModel, ExprNode, NameModel, NameNode, VisitedExpr, VisitedModel,
};

verus! {

/// PostgreSQL functions that give back a set of rows for one call.
pub const SET_RETURNING_FUNCTIONS: [&'static str; 15] = [
    "generate_series",
    "generate_subscripts",
    "unnest",
    "regexp_matches",
    "regexp_split_to_table",
    "json_each",
    "json_each_text",
    "json_object_keys",
    "json_array_elements",
    "json_array_elements_text",
    "jsonb_each",
    "jsonb_each_text",
    "jsonb_object_keys",
    "jsonb_array_elements",
    "jsonb_array_elements_text",
];

/// The name in lower case, its parts joined by dots.
pub open spec fn dotted_lower(name: NameModel) -> Seq<char> {
    joined(name.parts.map_values(|part: Seq<char>| lower(part)), "."@)
}

/// The last part of the name is `word`, ASCII case ignored.
pub open spec fn last_part_is(name: NameModel, word: Seq<char>) -> bool {
    name.parts.len() > 0 && same_ignoring_case(name.parts.last(), word)
}

/// The name ends in `regexp_split_to_table`.
pub open spec fn names_regexp_split(name: NameModel) -> bool {
    last_part_is(name, "regexp_split_to_table"@)
}

/// The name ends in that of a built-in set-returning function.
pub open spec fn names_set_returning(name: NameModel) -> bool {
    exists|i: int|
        0 <= i < SET_RETURNING_FUNCTIONS@.len() && last_part_is(
            name,
            (#[trigger] SET_RETURNING_FUNCTIONS@[i])@,
        )
}

/// The policy admits the name as an internally row-capped table function.
pub open spec fn bounded_function(p: PolicyModel, name: NameModel) -> bool {
    p.bounded_table_functions.contains(dotted_lower(name))
}

/// The policy permits the name in a LATERAL join.
pub open spec fn listed_lateral(p: PolicyModel, name: NameModel) -> bool {
    p.safe_lateral_functions.contains(dotted_lower(name))
}

/// The policy lists the name as set-returning.
pub open spec fn listed_set_returning(p: PolicyModel, name: NameModel) -> bool {
    p.set_returning_functions.contains(dotted_lower(name))
}

/// A call of the name can give back more than one row.
pub open spec fn returns_rows(p: PolicyModel, name: NameModel) -> bool {
    names_set_returning(name) || bounded_function(p, name) || listed_set_returning(p, name)
}

/// The expression itself is a call that can give back more than one row.
pub open spec fn is_row_source(p: PolicyModel, e: VisitedModel) -> bool {
    e matches VisitedModel::Call(call) && returns_rows(p, call.name)
}

/// Somewhere in the expression stands a call that can give back more than one
/// row.
pub open spec fn has_row_source(p: PolicyModel, e: ExprModel) -> bool {
    exists|i: int| 0 <= i < e.visited.len() && is_row_source(p, #[trigger] e.visited[i])
}

/// The expression itself is, or takes as its sole argument, a subquery.
pub open spec fn is_subquery(e: VisitedModel) -> bool {
    match e {
        VisitedModel::Subquery
        | VisitedModel::Exists
        | VisitedModel::InSubquery
        | VisitedModel::AnyOp
        | VisitedModel::AllOp => true,
        VisitedModel::Call(call) => call.parameters == ArgumentsKind::Subquery || call.arguments
            == ArgumentsKind::Subquery,
        VisitedModel::Other => false,
    }
}

/// Somewhere in the expression stands a subquery.
pub open spec fn has_subquery(e: ExprModel) -> bool {
    exists|i: int| 0 <= i < e.visited.len() && is_subquery(#[trigger] e.visited[i])
}

/// The name in lower case, its parts joined by dots.
pub fn qualified_lowercase(name: &NameNode) -> (r: String)
    ensures
        r@ == dotted_lower(name.model()),
{
    let mut parts: Vec<String> = Vec::new();
    let mut i: usize = 0;
    while i < name.parts.len()
        invariant
            i <= name.parts.len(),
            parts.len() == i,
            forall|j: int| 0 <= j < i ==> (#[trigger] parts@[j])@ == lower(name.parts@[j]@),
        decreases name.parts.len() - i,
    {
        parts.push(to_lower(name.parts[i].as_str()));
        i += 1;
    }
    assert(texts(parts@) =~= name.model().parts.map_values(|part: Seq<char>| lower(part)));
    join(&parts, ".")
}

/// Whether the last part of the name is `word`, ASCII case ignored.
fn last_part_matches(name: &NameNode, word: &str) -> (r: bool)
    ensures
        r == last_part_is(name.model(), word@),
{
    let n = name.parts.len();
    n > 0 && eq_ignore_case(name.parts[n - 1].as_str(), word)
}

/// Whether the name ends in `regexp_split_to_table`.
pub fn is_regexp_split_to_table_name(name: &NameNode) -> (r: bool)
    ensures
        r == names_regexp_split(name.model()),
{
    last_part_matches(name, "regexp_split_to_table")
}

/// Whether the name ends in that of a built-in set-returning function.
pub fn is_set_returning_expression_function_name(name: &NameNode) -> (r: bool)
    ensures
        r == names_set_returning(name.model()),
{
    let list = SET_RETURNING_FUNCTIONS;
    let mut i: usize = 0;
    while i < list.len()
        invariant
            list == SET_RETURNING_FUNCTIONS,
            i <= list@.len(),
            forall|j: int|
                0 <= j < i ==> !last_part_is(
                    name.model(),
                    (#[trigger] SET_RETURNING_FUNCTIONS@[j])@,
                ),
        decreases list@.len() - i,
    {
        if last_part_matches(name, list[i]) {
            assert(last_part_is(name.model(), SET_RETURNING_FUNCTIONS@[i as int]@));
            return true;
        }
        i += 1;
    }
    false
}

/// Whether the arguments are one bare subquery. The expressions of an argument
/// list, and of the clauses in it, are visited expressions of their own.
pub fn is_bare_subquery(args: ArgumentsKind) -> (r: bool)
    ensures
        r == (args == ArgumentsKind::Subquery),
{
    args == ArgumentsKind::Subquery
}

/// Whether somewhere in the expression stands a subquery.
pub fn expression_contains_subquery(expr: &ExprNode) -> (r: bool)
    ensures
        r == has_subquery(expr.model()),
{
    let mut i: usize = 0;
    while i < expr.visited.len()
        invariant
            i <= expr.visited.len(),
            forall|j: int| 0 <= j < i ==> !is_subquery(#[trigger] expr.model().visited[j]),
        decreases expr.visited.len() - i,
    {
        let found = match &expr.visited[i] {
            VisitedExpr::Subquery
            | VisitedExpr::Exists
            | VisitedExpr::InSubquery
            | VisitedExpr::AnyOp
            | VisitedExpr::AllOp => true,
            VisitedExpr::Call(call) => is_bare_subquery(call.parameters)
                || is_bare_subquery(call.arguments),
            VisitedExpr::Other => false,
        };
        assert(found == is_subquery(expr.model().visited[i as int]));
        if found {
            return true;
        }
        i += 1;
    }
    false
}

impl Policy {
    /// Whether the policy admits the name as an internally row-capped table
    /// function.
    pub fn is_bounded_table_function(&self, name: &NameNode) -> (r: bool)
        ensures
            r == bounded_function(self@, name.model()),
    {
        let rendered = qualified_lowercase(name);
        list_has(&self.bounded_table_functions, rendered.as_str())
    }

    /// Whether the policy permits the name in a LATERAL join.
    pub fn is_listed_safe_lateral(&self, name: &NameNode) -> (r: bool)
        ensures
            r == listed_lateral(self@, name.model()),
    {
        let rendered = qualified_lowercase(name);
        list_has(&self.safe_lateral_functions, rendered.as_str())
    }

    /// Whether the policy lists the name as set-returning.
    pub fn is_listed_set_returning(&self, name: &NameNode) -> (r: bool)
        ensures
            r == listed_set_returning(self@, name.model()),
    {
        let rendered = qualified_lowercase(name);
        list_has(&self.set_returning_functions, rendered.as_str())
    }

    /// Whether somewhere in the expression stands a call that can give back
    /// more than one row.
    pub fn expression_contains_set_returning_function(&self, expr: &ExprNode) -> (r: bool)
        ensures
            r == has_row_source(self@, expr.model()),
    {
        let mut i: usize = 0;
        while i < expr.visited.len()
            invariant
                i <= expr.visited.len(),
                forall|j: int|
                    0 <= j < i ==> !is_row_source(self@, #[trigger] expr.model().visited[j]),
            decreases expr.visited.len() - i,
        {
            let found = match &expr.visited[i] {
                VisitedExpr::Call(call) => is_set_returning_expression_function_name(&call.name)
                    || self.is_bounded_table_function(&call.name)
                    || self.is_listed_set_returning(&call.name),
                _ => false,
            };
            assert(found == is_row_source(self@, expr.model().visited[i as int]));
            if found {
                return true;
            }
            i += 1;
        }
        false
    }
}

} // verus!
