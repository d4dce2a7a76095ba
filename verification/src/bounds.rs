//! Bounded work: literal LIMIT and OFFSET within the policy's cap, and the
//! query shapes that are bounded without a LIMIT.

use vstd::prelude::*;

use crate::calls::{bounded_function, expression_contains_subquery, has_row_source, has_subquery};
use crate::policy::{Policy, PolicyModel};
use crate::refusal::{around, or_else, refusal};
use crate::text::{
    contains_text, decimal, decimal_text, eq_ignore_case, holds_text, lower, number_of,
    parse_number, same_ignoring_case, to_lower,
};
use crate::tree::{
    item_models, BodyModel, BodyNode, BoundModel, BoundNode, ExprModel, ExprNode, LiteralModel,
    LiteralNode, QueryModel, QueryNode, SelectItemModel, SelectItemNode, TableModel, TableNode,
    VisitedExpr, VisitedModel,
};

verus! {

/// The refusal of a LIMIT or OFFSET above the cap.
pub open spec fn too_large(clause: Seq<char>, value: u64, max: u64) -> Seq<char> {
    clause + decimal(value as nat) + " is too large. Maximum allowed is "@ + decimal(max as nat)
        + "."@
}

/// Why the operand of an OFFSET is refused.
pub open spec fn offset_refusal(offset: BoundModel, max: u64) -> Option<Seq<char>> {
    match offset.literal {
        LiteralModel::Number(n) => match number_of(n) {
            None => Some(
                "Invalid OFFSET value '"@ + n + "'. OFFSET must be a non-negative integer."@,
            ),
            Some(value) => if value > max {
                Some(too_large("OFFSET "@, value, max))
            } else {
                None
            },
        },
        LiteralModel::Null => Some("OFFSET NULL is not allowed. Use a numeric OFFSET value."@),
        _ => Some(
            "OFFSET must be a numeric literal (e.g., OFFSET 100). Found: "@ + offset.text
                + ". Expressions, subqueries, and special values are not allowed."@,
        ),
    }
}

/// Why the operand of a LIMIT is refused.
pub open spec fn limit_refusal(limit: BoundModel, max: u64) -> Option<Seq<char>> {
    match limit.literal {
        LiteralModel::Number(n) => match number_of(n) {
            None => Some("Invalid LIMIT value '"@ + n + "'. LIMIT must be a positive integer."@),
            Some(value) => if value > max {
                Some(too_large("LIMIT "@, value, max))
            } else {
                None
            },
        },
        LiteralModel::Null => Some("LIMIT NULL is not allowed. Use a numeric LIMIT value."@),
        LiteralModel::Identifier(name) if same_ignoring_case(name, "ALL"@) => Some(
            "LIMIT ALL is not allowed. Use a numeric LIMIT value."@,
        ),
        _ => Some(
            "LIMIT must be a numeric literal (e.g., LIMIT 100). Found: "@ + limit.text
                + ". Expressions, subqueries, and special values are not allowed."@,
        ),
    }
}

/// The query has neither WITH nor OFFSET nor FETCH.
pub open spec fn plain_clauses(query: QueryModel) -> bool {
    query.with is None && query.offset is None && !query.fetch
}

/// The query reads one admitted, internally row-capped function and nothing
/// else.
pub open spec fn reads_bounded_function(p: PolicyModel, query: QueryModel) -> bool {
    &&& plain_clauses(query)
    &&& query.body matches BodyModel::Select(select)
    &&& select.from.len() == 1
    &&& select.from[0].joins.len() == 0
    &&& match select.from[0].relation {
        TableModel::Table { name, args } => args is Some && bounded_function(p, name),
        TableModel::Function { name, .. } => bounded_function(p, name),
        _ => false,
    }
}

/// A window in parentheses stands in the printed query.
pub open spec fn prints_window(printed: Seq<char>) -> bool {
    holds_text(printed, " over("@) || holds_text(printed, " over ("@)
}

/// The expression is a call of `count` as an aggregate, not over a window.
pub open spec fn is_count(e: ExprModel) -> bool {
    &&& e.visited.len() > 0
    &&& e.visited[0] matches VisitedModel::Call(call)
    &&& !call.over
    &&& same_ignoring_case(call.name.text, "count"@)
}

/// The item is a call of `count`, with or without an alias.
pub open spec fn counts(item: SelectItemModel) -> bool {
    match item {
        SelectItemModel::Unnamed(e) | SelectItemModel::Aliased(e) => is_count(e),
        _ => false,
    }
}

/// The query gives back one count over all its rows.
pub open spec fn counts_all(query: QueryModel) -> bool {
    &&& plain_clauses(query)
    &&& query.body matches BodyModel::Select(select)
    &&& select.projection.len() == 1
    &&& !holds_text(lower(query.text), "group by"@)
    &&& !holds_text(lower(query.text), "having"@)
    &&& !prints_window(lower(query.text))
    &&& counts(select.projection[0])
}

/// The item is one value: no wildcard, subquery or set of rows.
pub open spec fn is_scalar(p: PolicyModel, item: SelectItemModel) -> bool {
    match item {
        SelectItemModel::Unnamed(e) | SelectItemModel::Aliased(e) => !has_subquery(e)
            && !has_row_source(p, e),
        SelectItemModel::QualifiedWildcard | SelectItemModel::Wildcard => false,
    }
}

/// The query computes one row of values without reading any relation.
pub open spec fn computes_one_row(p: PolicyModel, query: QueryModel) -> bool {
    &&& plain_clauses(query)
    &&& query.body matches BodyModel::Select(select)
    &&& select.from.len() == 0
    &&& select.projection.len() > 0
    &&& !holds_text(lower(query.text), " group by "@)
    &&& !holds_text(lower(query.text), " having "@)
    &&& !prints_window(lower(query.text))
    &&& forall|i: int|
        0 <= i < select.projection.len() ==> is_scalar(p, #[trigger] select.projection[i])
}

/// The query is bounded without a LIMIT.
pub open spec fn bounded_by_shape(p: PolicyModel, query: QueryModel) -> bool {
    reads_bounded_function(p, query) || counts_all(query) || computes_one_row(p, query)
}

/// Why an optional OFFSET is refused.
pub open spec fn query_offset_refusal(p: PolicyModel, query: QueryModel) -> Option<Seq<char>> {
    match query.offset {
        Some(offset) => offset_refusal(offset, p.max_limit),
        None => None,
    }
}

/// Why the LIMIT and OFFSET of a query do not bound it.
pub open spec fn query_limit_refusal(p: PolicyModel, query: QueryModel) -> Option<Seq<char>> {
    or_else(
        query_offset_refusal(p, query),
        match query.limit {
            Some(limit) => limit_refusal(limit, p.max_limit),
            None => if bounded_by_shape(p, query) {
                None
            } else {
                Some(
                    "Query must have a LIMIT clause. Add 'LIMIT "@ + decimal(p.max_limit as nat)
                        + "' or less to prevent runaway queries."@,
                )
            },
        },
    )
}

/// The refusal of a LIMIT or OFFSET above the cap.
fn too_large_error(clause: &str, value: u64, max: u64) -> (r: String)
    ensures
        r@ == too_large(clause@, value, max),
{
    let head = around(clause, decimal_text(value).as_str(), " is too large. Maximum allowed is ");
    around(head.as_str(), decimal_text(max).as_str(), ".")
}

/// The one OFFSET law: a literal, non-negative integer within the bound.
/// Shared by the LIMIT gate (root query) and the every-query offsets gate.
pub fn check_offset_value(offset: &BoundNode, max_offset: u64) -> (r: Result<(), String>)
    ensures
        refusal(r) == offset_refusal(offset.model(), max_offset),
{
    match &offset.literal {
        LiteralNode::Number(n) => match parse_number(n.as_str()) {
            None => Err(
                around(
                    "Invalid OFFSET value '",
                    n.as_str(),
                    "'. OFFSET must be a non-negative integer.",
                ),
            ),
            Some(value) => if value > max_offset {
                Err(too_large_error("OFFSET ", value, max_offset))
            } else {
                Ok(())
            },
        },
        LiteralNode::Null => Err(
            "OFFSET NULL is not allowed. Use a numeric OFFSET value.".to_string(),
        ),
        _ => Err(
            around(
                "OFFSET must be a numeric literal (e.g., OFFSET 100). Found: ",
                offset.text.as_str(),
                ". Expressions, subqueries, and special values are not allowed.",
            ),
        ),
    }
}

/// The LIMIT law: a literal integer within the bound.
pub fn check_limit_value(limit: &BoundNode, max_limit: u64) -> (r: Result<(), String>)
    ensures
        refusal(r) == limit_refusal(limit.model(), max_limit),
{
    match &limit.literal {
        LiteralNode::Number(n) => match parse_number(n.as_str()) {
            None => {
                return Err(
                    around(
                        "Invalid LIMIT value '",
                        n.as_str(),
                        "'. LIMIT must be a positive integer.",
                    ),
                );
            },
            Some(value) => {
                if value > max_limit {
                    return Err(too_large_error("LIMIT ", value, max_limit));
                }
                return Ok(());
            },
        },
        LiteralNode::Null => {
            return Err("LIMIT NULL is not allowed. Use a numeric LIMIT value.".to_string());
        },
        LiteralNode::Identifier(name) => {
            if eq_ignore_case(name.as_str(), "ALL") {
                return Err("LIMIT ALL is not allowed. Use a numeric LIMIT value.".to_string());
            }
        },
        _ => {},
    }
    Err(
        around(
            "LIMIT must be a numeric literal (e.g., LIMIT 100). Found: ",
            limit.text.as_str(),
            ". Expressions, subqueries, and special values are not allowed.",
        ),
    )
}

/// Whether the expression is a call of `count` as an aggregate. Over a window,
/// named or in place, it gives one row for each row.
pub fn is_top_level_count_aggregate(expr: &ExprNode) -> (r: bool)
    ensures
        r == is_count(expr.model()),
{
    if expr.visited.len() == 0 {
        return false;
    }
    assert(expr.model().visited[0] == expr.visited@[0].model());
    match &expr.visited[0] {
        VisitedExpr::Call(call) => !call.over && eq_ignore_case(call.name.text.as_str(), "count"),
        _ => false,
    }
}

/// Whether the query has neither WITH nor OFFSET nor FETCH.
fn has_plain_clauses(query: &QueryNode) -> (r: bool)
    ensures
        r == plain_clauses(query.model()),
{
    query.with.is_none() && query.offset.is_none() && !query.fetch
}

/// Whether the query gives back one count over all its rows.
pub fn is_obviously_single_row_aggregate_query(query: &QueryNode) -> (r: bool)
    ensures
        r == counts_all(query.model()),
{
    if !has_plain_clauses(query) {
        return false;
    }
    match &query.body {
        BodyNode::Select(select) => {
            assert(query.body.model() == BodyModel::Select(Box::new(select.model())));
            assert(select.model().projection == item_models(select.projection@));
            if select.projection.len() != 1 {
                return false;
            }
            let rendered = to_lower(query.text.as_str());
            if contains_text(rendered.as_str(), "group by") || contains_text(
                rendered.as_str(),
                "having",
            ) || contains_text(rendered.as_str(), " over(") || contains_text(
                rendered.as_str(),
                " over (",
            ) {
                return false;
            }
            assert(select.model().projection[0] == select.projection@[0].model());
            match &select.projection[0] {
                SelectItemNode::Unnamed(expr) => is_top_level_count_aggregate(expr),
                SelectItemNode::Aliased(expr) => is_top_level_count_aggregate(expr),
                _ => false,
            }
        },
        _ => false,
    }
}

impl Policy {
    /// Whether the item is one value: no wildcard, subquery or set of rows.
    pub fn is_scalar_projection_item(&self, item: &SelectItemNode) -> (r: bool)
        ensures
            r == is_scalar(self@, item.model()),
    {
        match item {
            SelectItemNode::Unnamed(expr) | SelectItemNode::Aliased(expr) =>
                !expression_contains_subquery(expr)
                    && !self.expression_contains_set_returning_function(expr),
            SelectItemNode::QualifiedWildcard | SelectItemNode::Wildcard => false,
        }
    }

    /// Whether the query reads one admitted, internally row-capped function
    /// and nothing else.
    pub fn is_bounded_function_query(&self, query: &QueryNode) -> (r: bool)
        ensures
            r == reads_bounded_function(self@, query.model()),
    {
        // Keep this narrowly-scoped. This is a security control, not a convenience parser.
        if !has_plain_clauses(query) {
            return false;
        }
        match &query.body {
            BodyNode::Select(select) => {
                assert(query.body.model() == BodyModel::Select(Box::new(select.model())));
                assert(select.model().from.len() == select.from.len());
                if select.from.len() != 1 {
                    return false;
                }
                let table_with_joins = &select.from[0];
                assert(select.model().from[0] == table_with_joins.model());
                assert(table_with_joins.model().joins.len() == table_with_joins.joins.len());
                if table_with_joins.joins.len() != 0 {
                    return false;
                }
                match &table_with_joins.relation {
                    TableNode::Table { name, args } => args.is_some()
                        && self.is_bounded_table_function(name),
                    TableNode::Function { name, .. } => self.is_bounded_table_function(name),
                    _ => false,
                }
            },
            _ => false,
        }
    }

    /// Whether the query computes one row of values without reading any
    /// relation.
    pub fn is_no_from_scalar_query(&self, query: &QueryNode) -> (r: bool)
        ensures
            r == computes_one_row(self@, query.model()),
    {
        if !has_plain_clauses(query) {
            return false;
        }
        match &query.body {
            BodyNode::Select(select) => {
                assert(query.body.model() == BodyModel::Select(Box::new(select.model())));
                assert(select.model().projection == item_models(select.projection@));
                if select.from.len() != 0 || select.projection.len() == 0 {
                    return false;
                }
                let rendered = to_lower(query.text.as_str());
                if contains_text(rendered.as_str(), " group by ") || contains_text(
                    rendered.as_str(),
                    " having ",
                ) || contains_text(rendered.as_str(), " over(") || contains_text(
                    rendered.as_str(),
                    " over (",
                ) {
                    return false;
                }
                let ghost items = select.model().projection;
                let mut i: usize = 0;
                while i < select.projection.len()
                    invariant
                        i <= select.projection.len(),
                        items == item_models(select.projection@),
                        forall|j: int| 0 <= j < i ==> is_scalar(self@, #[trigger] items[j]),
                        query.model().body == BodyModel::Select(Box::new(select.model())),
                        items == select.model().projection,
                    decreases select.projection.len() - i,
                {
                    assert(items[i as int] == select.projection@[i as int].model());
                    if !self.is_scalar_projection_item(&select.projection[i]) {
                        return false;
                    }
                    i += 1;
                }
                true
            },
            _ => false,
        }
    }

    /// Refuses a query whose LIMIT and OFFSET are not literals within the
    /// bound, or that has no LIMIT and is not bounded by its shape.
    pub fn check_query_limit(&self, query: &QueryNode) -> (r: Result<(), String>)
        ensures
            refusal(r) == query_limit_refusal(self@, query.model()),
    {
        if let Some(offset) = &query.offset {
            check_offset_value(offset, self.max_limit)?;
        }
        match &query.limit {
            None => {
                // Internally row-capped helper functions do not need a redundant
                // outer LIMIT, and obvious single-row aggregates (e.g. SELECT
                // COUNT(*)) are already bounded.
                if self.is_bounded_function_query(query)
                    || is_obviously_single_row_aggregate_query(query)
                    || self.is_no_from_scalar_query(query) {
                    Ok(())
                } else {
                    Err(
                        around(
                            "Query must have a LIMIT clause. Add 'LIMIT ",
                            decimal_text(self.max_limit).as_str(),
                            "' or less to prevent runaway queries.",
                        ),
                    )
                }
            },
            Some(limit) => check_limit_value(limit, self.max_limit),
        }
    }
}

} // verus!
