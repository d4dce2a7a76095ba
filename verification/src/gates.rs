//! The every-query gates: laws that each query nested anywhere in a statement
//! must obey, one law per gate and one walk for all of them.

use vstd::prelude::*;

use crate::bounds::{check_offset_value, query_limit_refusal, query_offset_refusal};
use crate::calls::has_row_source;
use crate::joins::body_cartesian_refusal;
use crate::policy::{Policy, PolicyModel};
use crate::refusal::{or_else, refusal};
use crate::relations::query_refusal;
use crate::tree::{
    item_models, query_models, stands_in_query, BodyModel, BodyNode, QueryModel, QueryNode,
    QueryWalk, SelectItemModel, SelectItemNode, StatementModel, WalkBody, WalkBodyModel, WalkModel,
};

verus! {

/// Every query of a walk, in walking order.
pub open spec fn walked(walk: WalkModel) -> Seq<QueryModel>
    decreases walk,
{
    seq![walk.query] + walk.in_with + walked_in_body(walk.body) + walk.in_clauses
}

/// Every query in the body of a walked query, in walking order.
pub open spec fn walked_in_body(body: WalkBodyModel) -> Seq<QueryModel>
    decreases body,
{
    match body {
        WalkBodyModel::Parenthesized(walk) => walked(*walk),
        WalkBodyModel::Nested(queries) => queries,
    }
}

/// Every query of a walk but the outermost one, and those that are merely the
/// outermost one in parentheses.
pub open spec fn nested(walk: WalkModel) -> Seq<QueryModel>
    decreases walk,
{
    walk.in_with + nested_in_body(walk.body) + walk.in_clauses
}

/// The nested queries in the body of a walked query.
pub open spec fn nested_in_body(body: WalkBodyModel) -> Seq<QueryModel>
    decreases body,
{
    match body {
        WalkBodyModel::Parenthesized(walk) => nested(*walk),
        WalkBodyModel::Nested(queries) => queries,
    }
}

/// The walk misses no query that stands in the walked one.
pub open spec fn complete(walk: WalkModel) -> bool {
    forall|inner: QueryModel| #[trigger]
        stands_in_query(walk.query, inner) ==> walked(walk).contains(inner)
}

/// Every walk in the statement is complete.
pub open spec fn statement_complete(statement: StatementModel) -> bool
    decreases statement,
{
    match statement {
        StatementModel::Query(walk) => complete(*walk),
        StatementModel::Explain { statement, .. } => statement_complete(*statement),
        StatementModel::Other(_) => true,
    }
}

/// What a law says of one query: a refusal, or nothing.
pub type QueryLaw = spec_fn(QueryModel) -> Option<Seq<char>>;

/// The refusal of the first query that the law refuses.
pub open spec fn first_refusal(law: QueryLaw, queries: Seq<QueryModel>) -> Option<Seq<char>>
    decreases queries.len(),
{
    if queries.len() == 0 {
        None
    } else {
        or_else(law(queries[0]), first_refusal(law, queries.skip(1)))
    }
}

/// The law on reading: a query locks, writes and reads only as the policy
/// admits.
pub open spec fn read_only_law(p: PolicyModel) -> QueryLaw {
    |query: QueryModel| query_refusal(p, query)
}

/// The law on OFFSET.
pub open spec fn offset_law(p: PolicyModel) -> QueryLaw {
    |query: QueryModel| query_offset_refusal(p, query)
}

/// The query sorts its rows.
pub open spec fn sorts(query: QueryModel) -> bool {
    query.order_by matches Some(count) && count > 0
}

/// The law on nested sort work: a query that sorts is bounded by itself.
pub open spec fn sort_law(p: PolicyModel) -> QueryLaw {
    |query: QueryModel|
        if sorts(query) && query_limit_refusal(p, query) is Some {
            Some(
                "Nested queries with ORDER BY must include their own bounded LIMIT. An outer LIMIT does not bound inner sort work."@,
            )
        } else {
            None
        }
}

/// The item computes a set of rows.
pub open spec fn item_has_row_source(p: PolicyModel, item: SelectItemModel) -> bool {
    match item {
        SelectItemModel::Unnamed(e) | SelectItemModel::Aliased(e) => has_row_source(p, e),
        SelectItemModel::QualifiedWildcard | SelectItemModel::Wildcard => false,
    }
}

/// An item of the SELECT list computes a set of rows.
pub open spec fn items_have_row_source(p: PolicyModel, items: Seq<SelectItemModel>) -> bool {
    exists|i: int| 0 <= i < items.len() && item_has_row_source(p, #[trigger] items[i])
}

/// A SELECT of the body, through set operations, has an item that computes a
/// set of rows. A query nested in the body is looked at on its own.
pub open spec fn projects_rows(p: PolicyModel, body: BodyModel) -> bool
    decreases body,
{
    match body {
        BodyModel::Select(select) => items_have_row_source(p, select.projection),
        BodyModel::SetOperation { left, right } => projects_rows(p, *left) || projects_rows(
            p,
            *right,
        ),
        _ => false,
    }
}

/// The law on SELECT lists: no set-returning function in them.
pub open spec fn projection_law(p: PolicyModel) -> QueryLaw {
    |query: QueryModel|
        if projects_rows(p, query.body) {
            Some(
                "Set-returning functions are not allowed in the SELECT list on this SQL surface; they can expand result cardinality without bound."@,
            )
        } else {
            None
        }
}

/// The law on joins: no cartesian product.
pub open spec fn cartesian_law(p: PolicyModel) -> QueryLaw {
    |query: QueryModel| body_cartesian_refusal(p, query.body)
}

/// The models of borrowed queries.
pub open spec fn borrowed_models(queries: Seq<&QueryNode>) -> Seq<QueryModel> {
    queries.map_values(|q: &QueryNode| q.model())
}

/// Appends the queries of a list.
fn borrow_all<'a>(out: &mut Vec<&'a QueryNode>, queries: &'a Vec<QueryNode>)
    ensures
        borrowed_models(final(out)@) == borrowed_models(old(out)@) + query_models(queries@),
{
    let ghost start = out@;
    let mut i: usize = 0;
    while i < queries.len()
        invariant
            i <= queries.len(),
            out@.len() == start.len() + i,
            borrowed_models(out@) =~= borrowed_models(start) + query_models(queries@).take(
                i as int,
            ),
        decreases queries.len() - i,
    {
        let ghost before = out@;
        out.push(&queries[i]);
        assert(borrowed_models(out@) =~= borrowed_models(before).push(queries@[i as int].model()));
        i += 1;
    }
    assert(query_models(queries@).take(queries.len() as int) =~= query_models(queries@));
}

/// Appends every query of a walk, in walking order.
fn collect_walked<'a>(out: &mut Vec<&'a QueryNode>, walk: &'a QueryWalk)
    ensures
        borrowed_models(final(out)@) == borrowed_models(old(out)@) + walked(walk.model()),
    decreases *walk,
{
    let ghost start = borrowed_models(out@);
    let ghost before = out@;
    out.push(&walk.query);
    assert(borrowed_models(out@) =~= start.push(walk.query.model()));
    borrow_all(out, &walk.in_with);
    match &walk.body {
        WalkBody::Parenthesized(inner) => {
            assert(walk.body.model() == WalkBodyModel::Parenthesized(Box::new(inner.model())));
            collect_walked(out, inner);
            assert(walked_in_body(walk.body.model()) == walked(inner.model()));
        },
        WalkBody::Nested(queries) => {
            borrow_all(out, queries);
            assert(walked_in_body(walk.body.model()) == query_models(queries@));
        },
    }
    borrow_all(out, &walk.in_clauses);
    assert(walk.model().body == walk.body.model());
    assert(borrowed_models(out@) =~= start + walked(walk.model()));
}

/// Appends every nested query of a walk, in walking order.
fn collect_nested<'a>(out: &mut Vec<&'a QueryNode>, walk: &'a QueryWalk)
    ensures
        borrowed_models(final(out)@) == borrowed_models(old(out)@) + nested(walk.model()),
    decreases *walk,
{
    let ghost start = borrowed_models(out@);
    borrow_all(out, &walk.in_with);
    match &walk.body {
        WalkBody::Parenthesized(inner) => {
            assert(walk.body.model() == WalkBodyModel::Parenthesized(Box::new(inner.model())));
            collect_nested(out, inner);
            assert(nested_in_body(walk.body.model()) == nested(inner.model()));
        },
        WalkBody::Nested(queries) => {
            borrow_all(out, queries);
            assert(nested_in_body(walk.body.model()) == query_models(queries@));
        },
    }
    borrow_all(out, &walk.in_clauses);
    assert(walk.model().body == walk.body.model());
    assert(borrowed_models(out@) =~= start + nested(walk.model()));
}

/// Every query of a walk, in walking order.
pub fn walked_queries<'a>(walk: &'a QueryWalk) -> (r: Vec<&'a QueryNode>)
    ensures
        borrowed_models(r@) == walked(walk.model()),
{
    let mut out: Vec<&'a QueryNode> = Vec::new();
    collect_walked(&mut out, walk);
    assert(borrowed_models(out@) =~= walked(walk.model()));
    out
}

/// Every nested query of a walk, in walking order.
pub fn nested_queries<'a>(walk: &'a QueryWalk) -> (r: Vec<&'a QueryNode>)
    ensures
        borrowed_models(r@) == nested(walk.model()),
{
    let mut out: Vec<&'a QueryNode> = Vec::new();
    collect_nested(&mut out, walk);
    assert(borrowed_models(out@) =~= nested(walk.model()));
    out
}

/// Applies `action`, which decides as `law` says, to each of the queries in
/// turn, stopping at the first error.
fn check_each_query<F: Fn(&QueryNode) -> Result<(), String>>(
    queries: &Vec<&QueryNode>,
    action: F,
    Ghost(law): Ghost<QueryLaw>,
) -> (r: Result<(), String>)
    requires
        forall|q: &QueryNode| call_requires(action, (q,)),
        forall|q: &QueryNode, out: Result<(), String>|
            call_ensures(action, (q,), out) ==> refusal(out) == law(q.model()),
    ensures
        refusal(r) == first_refusal(law, borrowed_models(queries@)),
{
    let ghost all = borrowed_models(queries@);
    let mut i: usize = 0;
    assert(all.skip(0) =~= all);
    while i < queries.len()
        invariant
            i <= queries.len(),
            all == borrowed_models(queries@),
            forall|q: &QueryNode| call_requires(action, (q,)),
            forall|q: &QueryNode, out: Result<(), String>|
                call_ensures(action, (q,), out) ==> refusal(out) == law(q.model()),
            first_refusal(law, all.skip(i as int)) == first_refusal(law, all),
        decreases queries.len() - i,
    {
        assert(all.skip(i as int)[0] == queries@[i as int].model());
        assert(all.skip(i as int).skip(1) =~= all.skip(i + 1));
        action(queries[i])?;
        i += 1;
    }
    Ok(())
}

impl Policy {
    /// Refuses what is not read-only, on every query: also on those inside
    /// expressions, which a walk through FROM never reaches.
    pub fn check_read_only_queries(&self, walk: &QueryWalk) -> (r: Result<(), String>)
        ensures
            refusal(r) == first_refusal(read_only_law(self@), walked(walk.model())),
    {
        let action = |q: &QueryNode| -> (out: Result<(), String>)
            ensures
                refusal(out) == read_only_law(self@)(q.model()),
        { self.validate_read_only_query(q) };
        check_each_query(&walked_queries(walk), action, Ghost(read_only_law(self@)))
    }

    /// Refuses an OFFSET that is not a literal within the bound, on every
    /// query.
    pub fn check_query_offsets(&self, walk: &QueryWalk) -> (r: Result<(), String>)
        ensures
            refusal(r) == first_refusal(offset_law(self@), walked(walk.model())),
    {
        let action = |q: &QueryNode| -> (out: Result<(), String>)
            ensures
                refusal(out) == offset_law(self@)(q.model()),
        {
            match &q.offset {
                Some(offset) => check_offset_value(offset, self.max_limit),
                None => Ok(()),
            }
        };
        check_each_query(&walked_queries(walk), action, Ghost(offset_law(self@)))
    }

    /// Refuses nested queries whose sort work nothing bounds. The outermost
    /// query, and a body that is merely it in parentheses, is bounded by the
    /// outer LIMIT gate; every other query must bound its own ORDER BY.
    pub fn check_bounded_nested_work(&self, walk: &QueryWalk) -> (r: Result<(), String>)
        ensures
            refusal(r) == first_refusal(sort_law(self@), nested(walk.model())),
    {
        let action = |q: &QueryNode| -> (out: Result<(), String>)
            ensures
                refusal(out) == sort_law(self@)(q.model()),
        {
            let sorted = match q.order_by {
                Some(count) => count > 0,
                None => false,
            };
            if sorted && self.check_query_limit(q).is_err() {
                return Err(
                    "Nested queries with ORDER BY must include their own bounded LIMIT. An outer LIMIT does not bound inner sort work.".to_string(),
                );
            }
            Ok(())
        };
        check_each_query(&nested_queries(walk), action, Ghost(sort_law(self@)))
    }

    /// Whether an item of the SELECT list computes a set of rows.
    fn items_contain_set_returning(&self, items: &Vec<SelectItemNode>) -> (r: bool)
        ensures
            r == items_have_row_source(self@, item_models(items@)),
    {
        let ghost all = item_models(items@);
        let mut i: usize = 0;
        while i < items.len()
            invariant
                i <= items.len(),
                all == item_models(items@),
                forall|j: int| 0 <= j < i ==> !item_has_row_source(self@, #[trigger] all[j]),
            decreases items.len() - i,
        {
            assert(all[i as int] == items@[i as int].model());
            let found = match &items[i] {
                SelectItemNode::Unnamed(expr) | SelectItemNode::Aliased(expr) =>
                    self.expression_contains_set_returning_function(expr),
                SelectItemNode::QualifiedWildcard | SelectItemNode::Wildcard => false,
            };
            if found {
                assert(item_has_row_source(self@, all[i as int]));
                return true;
            }
            i += 1;
        }
        false
    }

    /// Whether a SELECT of the body, through set operations, has an item that
    /// computes a set of rows.
    fn projects_set_returning(&self, body: &BodyNode) -> (r: bool)
        ensures
            r == projects_rows(self@, body.model()),
        decreases *body,
    {
        match body {
            BodyNode::Select(select) => {
                assert(select.model().projection == item_models(select.projection@));
                self.items_contain_set_returning(&select.projection)
            },
            BodyNode::SetOperation { left, right } => self.projects_set_returning(left)
                || self.projects_set_returning(right),
            _ => false,
        }
    }

    /// A set-returning function in a SELECT list expands one input row into many
    /// output rows before any outer LIMIT or aggregate applies. In a derived
    /// table — `SELECT count(*) FROM (SELECT generate_series(1, 1e9) AS g) t` —
    /// the inner explosion happens even though the outer query looks bounded.
    /// Such functions are already refused as FROM relations; refuse them in
    /// projections too, on every query and in every branch of a set operation.
    pub fn check_projection_set_returning(&self, walk: &QueryWalk) -> (r: Result<(), String>)
        ensures
            refusal(r) == first_refusal(projection_law(self@), walked(walk.model())),
    {
        let action = |q: &QueryNode| -> (out: Result<(), String>)
            ensures
                refusal(out) == projection_law(self@)(q.model()),
        {
            if self.projects_set_returning(&q.body) {
                return Err(
                    "Set-returning functions are not allowed in the SELECT list on this SQL surface; they can expand result cardinality without bound.".to_string(),
                );
            }
            Ok(())
        };
        check_each_query(&walked_queries(walk), action, Ghost(projection_law(self@)))
    }

    /// Refuses cartesian joins, on every query: those of WITH, derived tables
    /// and set operations, and subqueries in expressions.
    pub fn detect_cartesian_products(&self, walk: &QueryWalk) -> (r: Result<(), String>)
        ensures
            refusal(r) == first_refusal(cartesian_law(self@), walked(walk.model())),
    {
        let action = |q: &QueryNode| -> (out: Result<(), String>)
            ensures
                refusal(out) == cartesian_law(self@)(q.model()),
        { self.detect_cartesian_in_set_expr(&q.body) };
        check_each_query(&walked_queries(walk), action, Ghost(cartesian_law(self@)))
    }
}

} // verus!
