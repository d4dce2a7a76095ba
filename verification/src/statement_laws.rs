//! Laws on whole statements and texts: which pass, by what stands in them, and
//! what is said of those that do not.

use vstd::prelude::*;

use crate::aggregates::lacks_alias;
use crate::bounds::query_limit_refusal;
use crate::calls::has_row_source;
use crate::gates::{
    cartesian_law, first_refusal, item_has_row_source, items_have_row_source, nested,
    nested_in_body, offset_law, projection_law, projects_rows, read_only_law, sort_law, walked,
    walked_in_body,
};
use crate::join_laws::{law_joins_pass_exactly, select_in_body, select_multiplies_nothing};
use crate::laws::lemma_first_refusal;
use crate::limit_laws::{
    computes_values, counts_rows, gives_rows, is_column, is_number_up_to,
    law_expressions_are_searched_to_the_bottom, law_limits_pass_exactly, reads_one_listed_function,
};
use crate::parse_error::{advice, error_text, lowercased};
use crate::policy::PolicyModel;
use crate::read_laws::{law_queries_are_read_only_exactly, only_reads, part_in_query, ReadPart};
use crate::reader::parsed_statements;
use crate::refusal::{class_refused, or_else, statement_label};
use crate::relations::{kind_name, query_refusal};
use crate::sql::tokens_of;
use crate::text::{decimal, same_ignoring_case};
use crate::tokens::token_refusal;
use crate::tree::{
    BodyModel, ExplainOptionModel, ExprModel, LiteralModel, QueryModel, SelectItemModel,
    SelectModel, StatementKind, StatementModel, TokenModel, VisitedModel, WalkBodyModel, WalkModel,
};
use crate::validate::{
    kind_of, list_executes, option_executes, options_execute, sql_refusal, statement_refusal,
    statements_refusal, work_refusal,
};

verus! {

/// The walk meets the query: it is the walked one, or is found in its WITH
/// clause, in its body or in the clauses after the body.
pub open spec fn meets(walk: WalkModel, query: QueryModel) -> bool
    decreases walk,
{
    ||| walk.query == query
    ||| walk.in_with.contains(query)
    ||| walk.in_clauses.contains(query)
    ||| walk.body matches WalkBodyModel::Nested(queries) && queries.contains(query)
    ||| walk.body matches WalkBodyModel::Parenthesized(inner) && meets(*inner, query)
}

/// The walk meets the query below the outermost one: as `meets`, but the walked
/// query, and what is merely that query in parentheses, do not count.
pub open spec fn meets_below(walk: WalkModel, query: QueryModel) -> bool
    decreases walk,
{
    ||| walk.in_with.contains(query)
    ||| walk.in_clauses.contains(query)
    ||| walk.body matches WalkBodyModel::Nested(queries) && queries.contains(query)
    ||| walk.body matches WalkBodyModel::Parenthesized(inner) && meets_below(*inner, query)
}

/// The walk misses none of the queries that it was made of, and adds none.
pub proof fn law_walks_meet_every_query(walk: WalkModel, query: QueryModel)
    ensures
        walked(walk).contains(query) <==> meets(walk, query),
        nested(walk).contains(query) <==> meets_below(walk, query),
    decreases walk,
{
    if let WalkBodyModel::Parenthesized(inner) = walk.body {
        law_walks_meet_every_query(*inner, query);
    }
    let w = walk.in_with;
    let c = walk.in_clauses;
    let b = walked_in_body(walk.body);
    let n = nested_in_body(walk.body);
    let all = walked(walk);
    let below = nested(walk);
    assert(b.contains(query) <==> (walk.body matches WalkBodyModel::Nested(queries)
        && queries.contains(query)) || (walk.body matches WalkBodyModel::Parenthesized(inner)
        && meets(*inner, query)));
    assert(n.contains(query) <==> (walk.body matches WalkBodyModel::Nested(queries)
        && queries.contains(query)) || (walk.body matches WalkBodyModel::Parenthesized(inner)
        && meets_below(*inner, query)));
    if all.contains(query) {
        let k = choose|k: int| 0 <= k < all.len() && all[k] == query;
        if k == 0 {
        } else if k < 1 + w.len() {
            assert(w[k - 1] == query);
        } else if k < 1 + w.len() + b.len() {
            assert(b[k - 1 - w.len()] == query);
        } else {
            assert(c[k - 1 - w.len() - b.len()] == query);
        }
    }
    if walk.query == query {
        assert(all[0] == query);
    }
    if w.contains(query) {
        let k = choose|k: int| 0 <= k < w.len() && w[k] == query;
        assert(all[1 + k] == query);
        assert(below[k] == query);
    }
    if b.contains(query) {
        let k = choose|k: int| 0 <= k < b.len() && b[k] == query;
        assert(all[1 + w.len() + k] == query);
    }
    if n.contains(query) {
        let k = choose|k: int| 0 <= k < n.len() && n[k] == query;
        assert(below[w.len() + k] == query);
    }
    if c.contains(query) {
        let k = choose|k: int| 0 <= k < c.len() && c[k] == query;
        assert(all[1 + w.len() + b.len() + k] == query);
        assert(below[w.len() + n.len() + k] == query);
    }
    if below.contains(query) {
        let k = choose|k: int| 0 <= k < below.len() && below[k] == query;
        if k < w.len() {
            assert(w[k] == query);
        } else if k < w.len() + n.len() {
            assert(n[k - w.len()] == query);
        } else {
            assert(c[k - w.len() - n.len()] == query);
        }
    }
}

/// A column of the SELECT can give back more rows than one: somewhere in its
/// expression stands a call that gives rows.
pub open spec fn lists_rows(p: PolicyModel, select: SelectModel) -> bool {
    exists|i: int, e: ExprModel, k: int|
        #![trigger select.projection[i], e.visited[k]]
        0 <= i < select.projection.len() && is_column(select.projection[i], e) && 0 <= k
            < e.visited.len() && (e.visited[k] matches VisitedModel::Call(call) && gives_rows(
            p,
            call.name,
        ))
}

/// A SELECT list gives rows exactly if a column does.
proof fn lemma_lists(p: PolicyModel, select: SelectModel)
    ensures
        items_have_row_source(p, select.projection) <==> lists_rows(p, select),
{
    let items = select.projection;
    if items_have_row_source(p, items) {
        let i = choose|i: int|
            0 <= i < items.len() && item_has_row_source(p, #[trigger] items[i]);
        match items[i] {
            SelectItemModel::Unnamed(e) | SelectItemModel::Aliased(e) => {
                law_expressions_are_searched_to_the_bottom(p, e);
                assert(is_column(items[i], e));
                let k = choose|k: int|
                    0 <= k < e.visited.len() && (
                    #[trigger] e.visited[k] matches VisitedModel::Call(call) && gives_rows(
                        p,
                        call.name,
                    ));
                assert(select.projection[i] == items[i]);
                assert(e.visited[k] matches VisitedModel::Call(call) && gives_rows(p, call.name));
            },
            _ => {},
        }
    }
    if lists_rows(p, select) {
        let (i, e, k) = choose|i: int, e: ExprModel, k: int|
            #![trigger select.projection[i], e.visited[k]]
            0 <= i < select.projection.len() && is_column(select.projection[i], e) && 0 <= k
                < e.visited.len() && (e.visited[k] matches VisitedModel::Call(call) && gives_rows(
                p,
                call.name,
            ));
        law_expressions_are_searched_to_the_bottom(p, e);
        assert(has_row_source(p, e));
        assert(item_has_row_source(p, items[i]));
    }
}

/// The projection gate refuses a body exactly if a column of one of its SELECTs,
/// in any branch of a set operation, can give back more rows than one.
pub proof fn law_projections_give_no_rows(p: PolicyModel, body: BodyModel)
    ensures
        projects_rows(p, body) <==> exists|select: SelectModel| #[trigger]
            select_in_body(body, select) && lists_rows(p, select),
    decreases body,
{
    match body {
        BodyModel::Select(boxed) => {
            lemma_lists(p, *boxed);
            assert(select_in_body(body, *boxed));
        },
        BodyModel::SetOperation { left, right } => {
            law_projections_give_no_rows(p, *left);
            law_projections_give_no_rows(p, *right);
            if projects_rows(p, *left) {
                let select = choose|select: SelectModel| #[trigger]
                    select_in_body(*left, select) && lists_rows(p, select);
                assert(select_in_body(body, select));
            }
            if projects_rows(p, *right) {
                let select = choose|select: SelectModel| #[trigger]
                    select_in_body(*right, select) && lists_rows(p, select);
                assert(select_in_body(body, select));
            }
            if exists|select: SelectModel| #[trigger]
                select_in_body(body, select) && lists_rows(p, select) {
                let select = choose|select: SelectModel| #[trigger]
                    select_in_body(body, select) && lists_rows(p, select);
                if !select_in_body(*left, select) {
                    assert(select_in_body(*right, select));
                }
            }
        },
        _ => {},
    }
}

/// What every query of an accepted statement is, however deep it stands: each
/// part of it only reads, its OFFSET is a number up to the cap or absent, no
/// SELECT of it multiplies rows, and none lists rows.
pub open spec fn is_admitted(p: PolicyModel, query: QueryModel) -> bool {
    &&& forall|part: ReadPart| #[trigger] part_in_query(query, part) ==> only_reads(p, part)
    &&& query.offset matches Some(offset) ==> is_number_up_to(offset, p.max_limit)
    &&& forall|select: SelectModel| #[trigger]
        select_in_body(query.body, select) ==> select_multiplies_nothing(p, select) && !lists_rows(
            p,
            select,
        )
}

/// The rows of the query are bounded: by a LIMIT that is a number up to the cap,
/// or, without one, by reading one listed function, counting, or computing
/// values.
pub open spec fn is_bounded(p: PolicyModel, query: QueryModel) -> bool {
    &&& query.offset matches Some(offset) ==> is_number_up_to(offset, p.max_limit)
    &&& match query.limit {
        Some(limit) => is_number_up_to(limit, p.max_limit),
        None => reads_one_listed_function(p, query) || counts_rows(query) || computes_values(
            p,
            query,
        ),
    }
}

/// Every query that the walk meets is admitted, the outermost is bounded, and so
/// is every other that sorts.
pub open spec fn is_safe(p: PolicyModel, walk: WalkModel) -> bool {
    &&& forall|query: QueryModel| #[trigger] meets(walk, query) ==> is_admitted(p, query)
    &&& is_bounded(p, walk.query)
    &&& forall|query: QueryModel| #[trigger]
        meets_below(walk, query) && (query.order_by matches Some(n) && n > 0) ==> is_bounded(
            p,
            query,
        )
}

/// The gates on each query refuse none exactly if each is admitted.
proof fn lemma_gates(p: PolicyModel, query: QueryModel)
    ensures
        is_admitted(p, query) <==> read_only_law(p)(query) is None && offset_law(p)(query) is None
            && projection_law(p)(query) is None && cartesian_law(p)(query) is None,
        sort_law(p)(query) is None <==> ((query.order_by matches Some(n) && n > 0) ==> is_bounded(
            p,
            query,
        )),
{
    law_queries_are_read_only_exactly(p, query);
    law_limits_pass_exactly(p, query);
    law_projections_give_no_rows(p, query.body);
    law_joins_pass_exactly(p, query.body);
    if projection_law(p)(query) is None {
        assert(!projects_rows(p, query.body));
    }
}

/// The gates refuse nothing of a query exactly if it is safe.
proof fn lemma_safe(p: PolicyModel, walk: WalkModel)
    ensures
        first_refusal(read_only_law(p), walked(walk)) is None && work_refusal(p, walk) is None
            <==> is_safe(p, walk),
{
    let all = walked(walk);
    let below = nested(walk);
    lemma_first_refusal(read_only_law(p), all);
    lemma_first_refusal(offset_law(p), all);
    lemma_first_refusal(sort_law(p), below);
    lemma_first_refusal(projection_law(p), all);
    lemma_first_refusal(cartesian_law(p), all);
    law_limits_pass_exactly(p, walk.query);
    if first_refusal(read_only_law(p), all) is None && work_refusal(p, walk) is None {
        assert forall|query: QueryModel| #[trigger] meets(walk, query) implies is_admitted(
            p,
            query,
        ) by {
            law_walks_meet_every_query(walk, query);
            let k = choose|k: int| 0 <= k < all.len() && all[k] == query;
            assert(all[k] == query);
            lemma_gates(p, query);
        }
        assert forall|query: QueryModel| #[trigger]
            meets_below(walk, query) && (query.order_by matches Some(n) && n > 0) implies is_bounded(
            p,
            query,
        ) by {
            law_walks_meet_every_query(walk, query);
            let k = choose|k: int| 0 <= k < below.len() && below[k] == query;
            assert(below[k] == query);
            lemma_gates(p, query);
        }
    }
    if is_safe(p, walk) {
        assert forall|k: int| 0 <= k < all.len() implies {
            let query = #[trigger] all[k];
            &&& read_only_law(p)(query) is None
            &&& offset_law(p)(query) is None
            &&& projection_law(p)(query) is None
            &&& cartesian_law(p)(query) is None
        } by {
            law_walks_meet_every_query(walk, all[k]);
            assert(all.contains(all[k]));
            assert(is_admitted(p, all[k]));
            lemma_gates(p, all[k]);
        }
        assert forall|k: int| 0 <= k < below.len() implies sort_law(p)(#[trigger] below[k])
            is None by {
            law_walks_meet_every_query(walk, below[k]);
            assert(below.contains(below[k]));
            assert(meets_below(walk, below[k]));
            lemma_gates(p, below[k]);
        }
    }
}

/// A query passes as a statement exactly if it is safe and, where the policy asks
/// for that, its aggregates are named.
pub proof fn law_queries_pass_exactly(p: PolicyModel, index: nat, walk: WalkModel)
    ensures
        statement_refusal(p, index, StatementModel::Query(Box::new(walk))) is None <==> is_safe(
            p,
            walk,
        ) && (p.require_aggregate_aliases ==> !lacks_alias(walk.query)),
{
    lemma_safe(p, walk);
}

/// The option would make EXPLAIN execute: it is called `analyze`, in any case, and
/// its argument is anything but the literal FALSE.
pub open spec fn would_execute(option: ExplainOptionModel) -> bool {
    same_ignoring_case(option.name, "analyze"@) && option.arg != Some(LiteralModel::Boolean(false))
}

/// An EXPLAIN passes exactly if it does not execute, with the keyword or by an
/// option, and what it explains is a safe query.
pub proof fn law_explains_pass_exactly(
    p: PolicyModel,
    index: nat,
    statement: StatementModel,
    analyze: bool,
    options: Option<Seq<ExplainOptionModel>>,
)
    ensures
        statement_refusal(
            p,
            index,
            StatementModel::Explain { statement: Box::new(statement), analyze, options },
        ) is None <==> !analyze && (options matches Some(list) ==> forall|k: int|
            0 <= k < list.len() ==> !would_execute(#[trigger] list[k])) && (
        statement matches StatementModel::Query(walk) && is_safe(p, *walk)),
{
    if let StatementModel::Query(walk) = statement {
        lemma_safe(p, *walk);
    }
    if let Some(list) = options {
        assert forall|k: int| 0 <= k < list.len() implies option_executes(#[trigger] list[k])
            == would_execute(list[k]) by {}
        if options_execute(options) {
            let k = choose|k: int| 0 <= k < list.len() && option_executes(#[trigger] list[k]);
            assert(would_execute(list[k]));
        }
        if exists|k: int| 0 <= k < list.len() && would_execute(#[trigger] list[k]) {
            let k = choose|k: int| 0 <= k < list.len() && would_execute(#[trigger] list[k]);
            assert(option_executes(list[k]));
            assert(list_executes(list));
        }
    }
}

/// The label counts statements from one.
pub proof fn law_labels_count_from_one(index: nat, what: Seq<char>)
    ensures
        statement_label(index) == "Statement "@ + decimal(index + 1) + ": "@,
        class_refused(index, what) == "Statement "@ + decimal(index + 1) + ": "@ + what
            + " is not allowed. Only SELECT queries are permitted."@,
{
}

/// What is said of a query, in order: that it does not only read, with the number
/// of the statement; then that an aggregate has no name; then that its rows are
/// not bounded; and only then what holds of nested queries.
pub proof fn law_query_messages(p: PolicyModel, index: nat, walk: WalkModel)
    ensures
        query_refusal(p, walk.query) matches Some(reason) ==> statement_refusal(
            p,
            index,
            StatementModel::Query(Box::new(walk)),
        ) == Some("Statement "@ + decimal(index + 1) + ": "@ + reason),
        (forall|query: QueryModel| #[trigger]
            meets(walk, query) ==> query_refusal(p, query) is None) && p.require_aggregate_aliases
            && lacks_alias(walk.query) ==> statement_refusal(
            p,
            index,
            StatementModel::Query(Box::new(walk)),
        ) == Some("Alias the aggregate: count() AS n."@),
        (forall|query: QueryModel| #[trigger]
            meets(walk, query) ==> query_refusal(p, query) is None) && !(p.require_aggregate_aliases
            && lacks_alias(walk.query)) ==> (query_limit_refusal(
            p,
            walk.query,
        ) matches Some(reason) ==> statement_refusal(
            p,
            index,
            StatementModel::Query(Box::new(walk)),
        ) == Some(reason)),
{
    let all = walked(walk);
    assert(all[0] == walk.query);
    assert(first_refusal(read_only_law(p), all) == or_else(
        query_refusal(p, walk.query),
        first_refusal(read_only_law(p), all.skip(1)),
    ));
    assert("Statement "@ + decimal(index + 1) + ": "@ == statement_label(index));
    if forall|query: QueryModel| #[trigger]
        meets(walk, query) ==> query_refusal(p, query) is None {
        lemma_first_refusal(read_only_law(p), all);
        assert forall|k: int| 0 <= k < all.len() implies read_only_law(p)(#[trigger] all[k])
            is None by {
            law_walks_meet_every_query(walk, all[k]);
            assert(all.contains(all[k]));
            assert(meets(walk, all[k]));
        }
    }
}

/// What is said of an EXPLAIN: that it executes, that it explains no query, or
/// what is said of the query.
pub proof fn law_explain_messages(
    p: PolicyModel,
    index: nat,
    statement: StatementModel,
    analyze: bool,
    options: Option<Seq<ExplainOptionModel>>,
)
    ensures
        analyze ==> statement_refusal(
            p,
            index,
            StatementModel::Explain { statement: Box::new(statement), analyze, options },
        ) == Some(
            "Statement "@ + decimal(index + 1) + ": "@
                + "EXPLAIN ANALYZE is not allowed (it executes the query). Use EXPLAIN without ANALYZE."@,
        ),
        !analyze && options is None && !(statement is Query) ==> statement_refusal(
            p,
            index,
            StatementModel::Explain { statement: Box::new(statement), analyze, options },
        ) == Some(
            "Statement "@ + decimal(index + 1) + ": "@
                + "EXPLAIN can only be used with read-only queries. EXPLAIN "@ + kind_name(
                kind_of(statement),
            ) + " is not allowed."@,
        ),
        kind_of(statement) == (match statement {
            StatementModel::Query(_) => StatementKind::Query,
            StatementModel::Explain { .. } => StatementKind::Explain,
            StatementModel::Other(kind) => kind,
        }),
        !analyze && options is None ==> (statement matches StatementModel::Query(walk) ==> (
        query_refusal(p, walk.query) matches Some(reason) ==> statement_refusal(
            p,
            index,
            StatementModel::Explain { statement: Box::new(statement), analyze, options },
        ) == Some("Statement "@ + decimal(index + 1) + ": "@ + "EXPLAIN "@ + reason))),
{
    if let StatementModel::Query(walk) = statement {
        let all = walked(*walk);
        assert(all[0] == walk.query);
        assert(first_refusal(read_only_law(p), all) == or_else(
            query_refusal(p, walk.query),
            first_refusal(read_only_law(p), all.skip(1)),
        ));
    }
}

/// How a text is judged, step by step: it must be SQL, hold a statement, have
/// tokens, have clean ones, hold one statement alone, and that must pass.
pub proof fn law_texts_are_judged_in_order(p: PolicyModel, sql: Seq<char>)
    ensures
        parsed_statements(sql) matches Err(e) ==> sql_refusal(p, sql) == Some(
            advice(error_text(e), lowercased(sql)),
        ),
        parsed_statements(sql) matches Ok(statements) ==> {
            &&& statements.len() == 0 ==> sql_refusal(p, sql) == Some("Empty query"@)
            &&& statements.len() > 0 ==> (tokens_of(sql) matches Err(e) ==> sql_refusal(p, sql)
                == Some("Failed to tokenize SQL for contract checks: "@ + e))
            &&& statements.len() > 0 ==> (tokens_of(sql) matches Ok(tokens) ==> {
                &&& token_refusal(p, tokens) is Some ==> sql_refusal(p, sql) == token_refusal(
                    p,
                    tokens,
                )
                &&& token_refusal(p, tokens) is None && statements.len() > 1 ==> sql_refusal(p, sql)
                    == Some(
                    "Only a single statement is supported. Use a single SELECT (or SELECT with CTEs/UNION) query."@,
                )
                &&& token_refusal(p, tokens) is None && statements.len() == 1 ==> sql_refusal(
                    p,
                    sql,
                ) == statement_refusal(p, 0, statements[0])
            })
        },
{
}

/// The same of statements and tokens that are already at hand.
pub proof fn law_statements_are_judged_in_order(
    p: PolicyModel,
    statements: Seq<StatementModel>,
    tokens: Seq<TokenModel>,
    error: Seq<char>,
)
    ensures
        statements_refusal(p, Seq::empty(), Ok(tokens)) == Some("Empty query"@),
        statements_refusal(p, Seq::empty(), Err(error)) == Some("Empty query"@),
        statements.len() > 0 ==> statements_refusal(p, statements, Err(error)) == Some(
            "Failed to tokenize SQL for contract checks: "@ + error,
        ),
        statements.len() > 0 && token_refusal(p, tokens) is Some ==> statements_refusal(
            p,
            statements,
            Ok(tokens),
        ) == token_refusal(p, tokens),
        statements.len() > 1 && token_refusal(p, tokens) is None ==> statements_refusal(
            p,
            statements,
            Ok(tokens),
        ) == Some(
            "Only a single statement is supported. Use a single SELECT (or SELECT with CTEs/UNION) query."@,
        ),
        statements.len() == 1 && token_refusal(p, tokens) is None ==> statements_refusal(
            p,
            statements,
            Ok(tokens),
        ) == statement_refusal(p, 0, statements[0]),
{
}

/// The class of a statement is spoken of by its name.
pub proof fn law_kinds_are_spoken_of(kind: StatementKind)
    ensures
        kind_name(StatementKind::Query) == "SELECT"@,
        kind_name(StatementKind::Insert) == "INSERT"@,
        kind_name(StatementKind::Update) == "UPDATE"@,
        kind_name(StatementKind::Delete) == "DELETE"@,
        kind_name(StatementKind::Drop) == "DROP"@,
        kind_name(StatementKind::Truncate) == "TRUNCATE"@,
        kind_name(StatementKind::Grant) == "GRANT"@,
        kind_name(StatementKind::Revoke) == "REVOKE"@,
        kind_name(StatementKind::Copy) == "COPY"@,
        kind_name(StatementKind::Explain) == "EXPLAIN"@,
        kind != StatementKind::Query && kind != StatementKind::Insert && kind
            != StatementKind::Update && kind != StatementKind::Delete && kind != StatementKind::Drop
            && kind != StatementKind::Truncate && kind != StatementKind::Grant && kind
            != StatementKind::Revoke && kind != StatementKind::Copy && kind
            != StatementKind::Explain ==> kind_name(kind) == "Unknown statement type"@,
{
}

} // verus!
