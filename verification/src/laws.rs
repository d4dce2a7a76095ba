//! What every accepted statement obeys: the gates as one condition, and what
//! follows from it.

use vstd::prelude::*;

use crate::aggregates::lacks_alias;
use crate::bounds::{
    bounded_by_shape, computes_one_row, is_scalar, limit_refusal, query_limit_refusal,
    query_offset_refusal, reads_bounded_function,
};
use crate::calls::{has_row_source, has_subquery, is_row_source};
use crate::gates::{
    cartesian_law, first_refusal, item_has_row_source, nested, nested_in_body, offset_law,
    projection_law, projects_rows, read_only_law, sort_law, sorts, walked, walked_in_body, QueryLaw,
};
use crate::joins::{
    body_cartesian_refusal, cartesian, from_cartesian_refusal, froms_cartesian_refusal,
    join_cartesian_refusal, joins_cartesian_refusal, nested_join_refusal, nested_joins_refusal,
    table_cartesian_refusal,
};
use crate::policy::{default_policy, PolicyModel};
use crate::reader::parsed_statements;
use crate::refusal::class_refused;
use crate::relations::{
    args_refusal, body_refusal, from_refusal, froms_refusal, join_refusal, joins_refusal,
    queries_refusal, query_refusal, safe_lateral_join, select_refusal, table_call_admitted,
    table_refusal,
};
use crate::sql::tokens_of;
use crate::text::{lower, number_of};
use crate::tokens::{
    begins_with_one, blocked_refusal, first_blocked, has_escape, identifier_of, meaningful,
    token_refusal,
};
use crate::tree::{
    ArgModel, BodyModel, BoundModel, ExplainOptionModel, ExprModel, FromModel, JoinModel,
    LiteralModel, NameModel, QueryModel, SelectItemModel, SelectModel, StatementKind,
    StatementModel, TableModel, TokenModel, WalkBodyModel, WalkModel,
};
use crate::validate::{class_name, options_execute, sql_refusal, statement_refusal, work_refusal};

verus! {

/// The argument of a table-valued function is one value without a subquery.
pub open spec fn arg_sound(p: PolicyModel, arg: ArgModel) -> bool {
    arg matches ArgModel::Expr(e) && !has_subquery(e) && !has_row_source(p, e)
}

/// Every argument is sound.
pub open spec fn args_sound(p: PolicyModel, args: Seq<ArgModel>) -> bool {
    forall|i: int| 0 <= i < args.len() ==> arg_sound(p, #[trigger] args[i])
}

/// The relation is a plain table, an admitted call, or made of such.
pub open spec fn table_sound(p: PolicyModel, table: TableModel, lateral: bool) -> bool
    decreases table,
{
    match table {
        TableModel::Table { name, args } => match args {
            Some(list) => table_call_admitted(p, name, lateral) && !list.settings && args_sound(
                p,
                list.args,
            ),
            None => true,
        },
        TableModel::Function { name, arguments, .. } => table_call_admitted(p, name, lateral)
            && args_sound(p, arguments),
        TableModel::TableFunction | TableModel::Unnest | TableModel::JsonTable => false,
        TableModel::Derived(query) => query_sound(p, *query),
        TableModel::NestedJoin(from) => from_sound(p, *from),
        TableModel::Pivot(inner) => table_sound(p, *inner, false),
        TableModel::Unpivot(inner) => table_sound(p, *inner, false),
        TableModel::MatchRecognize(inner) => table_sound(p, *inner, false),
    }
}

/// The joined relation is sound.
pub open spec fn join_sound(p: PolicyModel, join: JoinModel) -> bool
    decreases join,
{
    table_sound(p, join.relation, safe_lateral_join(p, join))
}

/// The relation and every relation joined to it are sound.
pub open spec fn from_sound(p: PolicyModel, from: FromModel) -> bool
    decreases from,
{
    &&& table_sound(p, from.relation, false)
    &&& forall|i: int| 0 <= i < from.joins.len() ==> join_sound(p, #[trigger] from.joins[i])
}

/// The SELECT has no INTO and reads only sound relations.
pub open spec fn select_sound(p: PolicyModel, select: SelectModel) -> bool
    decreases select,
{
    &&& !select.into
    &&& forall|i: int| 0 <= i < select.from.len() ==> from_sound(p, #[trigger] select.from[i])
}

/// The query body only reads.
pub open spec fn body_sound(p: PolicyModel, body: BodyModel) -> bool
    decreases body,
{
    match body {
        BodyModel::Select(select) => select_sound(p, *select),
        BodyModel::Query(query) => query_sound(p, *query),
        BodyModel::SetOperation { left, right } => body_sound(p, *left) && body_sound(p, *right),
        BodyModel::Values | BodyModel::Table => true,
        BodyModel::Insert(_) | BodyModel::Update(_) => false,
    }
}

/// The query, its WITH clause and its body only read: nothing in them locks
/// rows, selects into a table, changes data, or reads a relation that is not
/// sound.
pub open spec fn query_sound(p: PolicyModel, query: QueryModel) -> bool
    decreases query,
{
    &&& query.locks == 0
    &&& query.with matches Some(queries) ==> forall|i: int|
        0 <= i < queries.len() ==> query_sound(p, #[trigger] queries[i])
    &&& body_sound(p, query.body)
}

/// The read-only walk refuses nothing exactly if the arguments are sound.
proof fn lemma_args_sound(p: PolicyModel, name: NameModel, args: Seq<ArgModel>)
    ensures
        args_refusal(p, name, args) is None <==> args_sound(p, args),
    decreases args.len(),
{
    if args.len() > 0 {
        let rest = args.skip(1);
        lemma_args_sound(p, name, rest);
        assert forall|i: int| 0 <= i < rest.len() implies #[trigger] rest[i] == args[i + 1] by {}
        if args_sound(p, args) {
            assert(args_sound(p, rest));
        }
        if arg_sound(p, args[0]) && args_sound(p, rest) {
            assert forall|i: int| 0 <= i < args.len() implies arg_sound(p, #[trigger] args[i]) by {
                if i > 0 {
                    assert(arg_sound(p, rest[i - 1]));
                }
            }
        }
    }
}

/// The read-only walk refuses no relation exactly if it is sound.
proof fn lemma_table_sound(p: PolicyModel, table: TableModel, lateral: bool)
    ensures
        table_refusal(p, table, lateral) is None <==> table_sound(p, table, lateral),
    decreases table,
{
    match table {
        TableModel::Table { name, args } => {
            if let Some(list) = args {
                lemma_args_sound(p, name, list.args);
            }
        },
        TableModel::Function { name, arguments, .. } => {
            lemma_args_sound(p, name, arguments);
        },
        TableModel::Derived(query) => {
            lemma_query_sound(p, *query);
        },
        TableModel::NestedJoin(from) => {
            lemma_from_sound(p, *from);
        },
        TableModel::Pivot(inner) => {
            lemma_table_sound(p, *inner, false);
        },
        TableModel::Unpivot(inner) => {
            lemma_table_sound(p, *inner, false);
        },
        TableModel::MatchRecognize(inner) => {
            lemma_table_sound(p, *inner, false);
        },
        _ => {},
    }
}

/// The read-only walk refuses none of the joins exactly if each is sound.
proof fn lemma_joins_sound(p: PolicyModel, joins: Seq<JoinModel>)
    ensures
        joins_refusal(p, joins) is None <==> forall|i: int|
            0 <= i < joins.len() ==> join_sound(p, #[trigger] joins[i]),
    decreases joins,
{
    if joins.len() > 0 {
        let rest = joins.subrange(1, joins.len() as int);
        lemma_join_sound(p, joins[0]);
        lemma_joins_sound(p, rest);
        assert forall|i: int| 0 <= i < rest.len() implies #[trigger] rest[i] == joins[i + 1] by {}
        assert forall|i: int| 0 < i < joins.len() implies #[trigger] joins[i] == rest[i - 1] by {}
    }
}

/// The read-only walk refuses no joined relation exactly if it is sound.
proof fn lemma_join_sound(p: PolicyModel, join: JoinModel)
    ensures
        join_refusal(p, join) is None <==> join_sound(p, join),
    decreases join,
{
    lemma_table_sound(p, join.relation, safe_lateral_join(p, join));
}

/// The read-only walk refuses no entry of FROM exactly if it is sound.
proof fn lemma_from_sound(p: PolicyModel, from: FromModel)
    ensures
        from_refusal(p, from) is None <==> from_sound(p, from),
    decreases from,
{
    lemma_table_sound(p, from.relation, false);
    lemma_joins_sound(p, from.joins);
}

/// The read-only walk refuses none of FROM exactly if each entry is sound.
proof fn lemma_froms_sound(p: PolicyModel, froms: Seq<FromModel>)
    ensures
        froms_refusal(p, froms) is None <==> forall|i: int|
            0 <= i < froms.len() ==> from_sound(p, #[trigger] froms[i]),
    decreases froms,
{
    if froms.len() > 0 {
        let rest = froms.subrange(1, froms.len() as int);
        lemma_from_sound(p, froms[0]);
        lemma_froms_sound(p, rest);
        assert forall|i: int| 0 <= i < rest.len() implies #[trigger] rest[i] == froms[i + 1] by {}
        assert forall|i: int| 0 < i < froms.len() implies #[trigger] froms[i] == rest[i - 1] by {}
    }
}

/// The read-only walk refuses no body exactly if it only reads.
proof fn lemma_body_sound(p: PolicyModel, body: BodyModel)
    ensures
        body_refusal(p, body) is None <==> body_sound(p, body),
    decreases body,
{
    match body {
        BodyModel::Select(select) => {
            lemma_select_sound(p, *select);
        },
        BodyModel::Query(query) => {
            lemma_query_sound(p, *query);
        },
        BodyModel::SetOperation { left, right } => {
            lemma_body_sound(p, *left);
            lemma_body_sound(p, *right);
        },
        _ => {},
    }
}

/// The read-only walk refuses no SELECT exactly if it only reads.
proof fn lemma_select_sound(p: PolicyModel, select: SelectModel)
    ensures
        select_refusal(p, select) is None <==> select_sound(p, select),
    decreases select,
{
    lemma_froms_sound(p, select.from);
}

/// The read-only walk refuses none of the queries exactly if each only reads.
proof fn lemma_queries_sound(p: PolicyModel, queries: Seq<QueryModel>)
    ensures
        queries_refusal(p, queries) is None <==> forall|i: int|
            0 <= i < queries.len() ==> query_sound(p, #[trigger] queries[i]),
    decreases queries,
{
    if queries.len() > 0 {
        let rest = queries.subrange(1, queries.len() as int);
        lemma_query_sound(p, queries[0]);
        lemma_queries_sound(p, rest);
        assert forall|i: int| 0 <= i < rest.len() implies #[trigger] rest[i] == queries[i + 1] by {
        }
        assert forall|i: int| 0 < i < queries.len() implies #[trigger] queries[i] == rest[
            i - 1] by {}
    }
}

/// The read-only walk refuses no query exactly if it only reads.
pub(crate) proof fn lemma_query_sound(p: PolicyModel, query: QueryModel)
    ensures
        query_refusal(p, query) is None <==> query_sound(p, query),
    decreases query,
{
    if let Some(queries) = query.with {
        lemma_queries_sound(p, queries);
    }
    lemma_body_sound(p, query.body);
}

/// No join in the relation, if it is a join in parentheses, is a cartesian
/// product.
pub open spec fn table_joined(p: PolicyModel, table: TableModel) -> bool
    decreases table,
{
    match table {
        TableModel::NestedJoin(from) => from_joined(p, *from),
        _ => true,
    }
}

/// The join is no cartesian product, nor is one in the joined relation.
pub open spec fn join_joined(p: PolicyModel, join: JoinModel) -> bool
    decreases join,
{
    table_joined(p, join.relation) && !cartesian(p, join)
}

/// No join of the entry of FROM is a cartesian product.
pub open spec fn from_joined(p: PolicyModel, from: FromModel) -> bool
    decreases from,
{
    &&& table_joined(p, from.relation)
    &&& forall|i: int| 0 <= i < from.joins.len() ==> join_joined(p, #[trigger] from.joins[i])
}

/// Every SELECT of the body, through set operations, has at most one entry in
/// FROM, and no join in it is a cartesian product.
pub open spec fn body_joined(p: PolicyModel, body: BodyModel) -> bool
    decreases body,
{
    match body {
        BodyModel::Select(select) => {
            &&& select.from.len() <= 1
            &&& forall|i: int|
                0 <= i < select.from.len() ==> from_joined(p, #[trigger] select.from[i])
        },
        BodyModel::SetOperation { left, right } => body_joined(p, *left) && body_joined(p, *right),
        _ => true,
    }
}

/// The join gate refuses no relation exactly if no join in it is cartesian.
proof fn lemma_table_joined(p: PolicyModel, table: TableModel)
    ensures
        table_cartesian_refusal(p, table) is None <==> table_joined(p, table),
    decreases table,
{
    if let TableModel::NestedJoin(from) = table {
        lemma_table_joined(p, from.relation);
        lemma_nested_joins_joined(p, from.joins);
        assert(from_joined(p, *from) <==> table_joined(p, from.relation) && forall|i: int|
            0 <= i < from.joins.len() ==> join_joined(p, #[trigger] from.joins[i]));
    }
}

/// The join gate refuses none of the joins in parentheses exactly if none is
/// cartesian.
proof fn lemma_nested_joins_joined(p: PolicyModel, joins: Seq<JoinModel>)
    ensures
        nested_joins_refusal(p, joins) is None <==> forall|i: int|
            0 <= i < joins.len() ==> join_joined(p, #[trigger] joins[i]),
    decreases joins,
{
    if joins.len() > 0 {
        let rest = joins.subrange(1, joins.len() as int);
        lemma_nested_join_joined(p, joins[0]);
        lemma_nested_joins_joined(p, rest);
        assert forall|i: int| 0 <= i < rest.len() implies #[trigger] rest[i] == joins[i + 1] by {}
        assert forall|i: int| 0 < i < joins.len() implies #[trigger] joins[i] == rest[i - 1] by {}
    }
}

/// The join gate refuses no join in parentheses exactly if it is not
/// cartesian.
proof fn lemma_nested_join_joined(p: PolicyModel, join: JoinModel)
    ensures
        nested_join_refusal(p, join) is None <==> join_joined(p, join),
    decreases join,
{
    lemma_table_joined(p, join.relation);
}

/// The join gate refuses none of the joins exactly if none is cartesian.
proof fn lemma_joins_joined(p: PolicyModel, joins: Seq<JoinModel>)
    ensures
        joins_cartesian_refusal(p, joins) is None <==> forall|i: int|
            0 <= i < joins.len() ==> join_joined(p, #[trigger] joins[i]),
    decreases joins.len(),
{
    if joins.len() > 0 {
        let rest = joins.skip(1);
        lemma_table_joined(p, joins[0].relation);
        lemma_joins_joined(p, rest);
        assert(join_cartesian_refusal(p, joins[0]) is None <==> join_joined(p, joins[0]));
        assert forall|i: int| 0 <= i < rest.len() implies #[trigger] rest[i] == joins[i + 1] by {}
        assert forall|i: int| 0 < i < joins.len() implies #[trigger] joins[i] == rest[i - 1] by {}
    }
}

/// The join gate refuses no entry of FROM exactly if no join in it is
/// cartesian.
proof fn lemma_from_joined(p: PolicyModel, from: FromModel)
    ensures
        from_cartesian_refusal(p, from) is None <==> from_joined(p, from),
{
    lemma_table_joined(p, from.relation);
    lemma_joins_joined(p, from.joins);
}

/// The join gate refuses none of FROM exactly if no join in it is cartesian.
proof fn lemma_froms_joined(p: PolicyModel, froms: Seq<FromModel>)
    ensures
        froms_cartesian_refusal(p, froms) is None <==> forall|i: int|
            0 <= i < froms.len() ==> from_joined(p, #[trigger] froms[i]),
    decreases froms.len(),
{
    if froms.len() > 0 {
        let rest = froms.skip(1);
        lemma_from_joined(p, froms[0]);
        lemma_froms_joined(p, rest);
        assert forall|i: int| 0 <= i < rest.len() implies #[trigger] rest[i] == froms[i + 1] by {}
        assert forall|i: int| 0 < i < froms.len() implies #[trigger] froms[i] == rest[i - 1] by {}
    }
}

/// The join gate refuses no body exactly if no join in it is cartesian.
pub(crate) proof fn lemma_body_joined(p: PolicyModel, body: BodyModel)
    ensures
        body_cartesian_refusal(p, body) is None <==> body_joined(p, body),
    decreases body,
{
    match body {
        BodyModel::Select(select) => {
            lemma_froms_joined(p, select.from);
        },
        BodyModel::SetOperation { left, right } => {
            lemma_body_joined(p, *left);
            lemma_body_joined(p, *right);
        },
        _ => {},
    }
}

/// A law refuses none of the queries exactly if it refuses no single one.
pub(crate) proof fn lemma_first_refusal(law: QueryLaw, queries: Seq<QueryModel>)
    ensures
        first_refusal(law, queries) is None <==> forall|i: int|
            0 <= i < queries.len() ==> law(#[trigger] queries[i]) is None,
    decreases queries.len(),
{
    if queries.len() > 0 {
        let rest = queries.skip(1);
        lemma_first_refusal(law, rest);
        assert forall|i: int| 0 <= i < rest.len() implies #[trigger] rest[i] == queries[i + 1] by {
        }
        assert forall|i: int| 0 < i < queries.len() implies #[trigger] queries[i] == rest[
            i - 1] by {}
    }
}

/// The operand is a numeric literal no larger than `max`.
pub open spec fn literal_within(bound: BoundModel, max: u64) -> bool {
    &&& bound.literal matches LiteralModel::Number(n)
    &&& number_of(n) matches Some(value)
    &&& value <= max
}

/// The query has no OFFSET, or a literal one within the cap.
pub open spec fn offset_within(p: PolicyModel, query: QueryModel) -> bool {
    query.offset matches Some(offset) ==> literal_within(offset, p.max_limit)
}

/// The query hands back a bounded number of rows: its OFFSET and LIMIT are
/// literals within the cap, or it has no LIMIT and is bounded by its shape.
pub open spec fn rows_bounded(p: PolicyModel, query: QueryModel) -> bool {
    &&& offset_within(p, query)
    &&& match query.limit {
        Some(limit) => literal_within(limit, p.max_limit),
        None => bounded_by_shape(p, query),
    }
}

/// What every query in an accepted text is, however deep: it only reads, its
/// OFFSET is a literal within the cap or absent, its SELECT lists compute no
/// set of rows, and none of its joins is cartesian.
pub open spec fn query_admitted(p: PolicyModel, query: QueryModel) -> bool {
    &&& query_sound(p, query)
    &&& offset_within(p, query)
    &&& !projects_rows(p, query.body)
    &&& body_joined(p, query.body)
}

/// The work that the query asks for is bounded, and so is that of every query
/// nested in it.
pub open spec fn work_bounded(p: PolicyModel, walk: WalkModel) -> bool {
    &&& rows_bounded(p, walk.query)
    &&& forall|i: int|
        0 <= i < walked(walk).len() ==> {
            let query = #[trigger] walked(walk)[i];
            &&& offset_within(p, query)
            &&& !projects_rows(p, query.body)
            &&& body_joined(p, query.body)
        }
    &&& forall|i: int|
        0 <= i < nested(walk).len() && sorts(#[trigger] nested(walk)[i]) ==> rows_bounded(
            p,
            nested(walk)[i],
        )
}

/// The OFFSET gate refuses nothing exactly if the OFFSET is within the cap.
proof fn lemma_offset_within(p: PolicyModel, query: QueryModel)
    ensures
        query_offset_refusal(p, query) is None <==> offset_within(p, query),
{
}

/// The LIMIT gate refuses nothing exactly if the rows are bounded.
proof fn lemma_rows_bounded(p: PolicyModel, query: QueryModel)
    ensures
        query_limit_refusal(p, query) is None <==> rows_bounded(p, query),
{
    lemma_offset_within(p, query);
    if let Some(limit) = query.limit {
        assert(limit_refusal(limit, p.max_limit) is None <==> literal_within(limit, p.max_limit));
    }
}

/// The gates on bounded work refuse nothing exactly if the work is bounded.
pub(crate) proof fn lemma_work_bounded(p: PolicyModel, walk: WalkModel)
    ensures
        work_refusal(p, walk) is None <==> work_bounded(p, walk),
{
    let all = walked(walk);
    let inner = nested(walk);
    lemma_rows_bounded(p, walk.query);
    lemma_first_refusal(offset_law(p), all);
    lemma_first_refusal(sort_law(p), inner);
    lemma_first_refusal(projection_law(p), all);
    lemma_first_refusal(cartesian_law(p), all);
    assert forall|i: int| 0 <= i < all.len() implies {
        let query = #[trigger] all[i];
        &&& offset_law(p)(query) is None <==> offset_within(p, query)
        &&& projection_law(p)(query) is None <==> !projects_rows(p, query.body)
        &&& cartesian_law(p)(query) is None <==> body_joined(p, query.body)
    } by {
        lemma_offset_within(p, all[i]);
        lemma_body_joined(p, all[i].body);
    }
    assert forall|i: int| 0 <= i < inner.len() implies {
        let query = #[trigger] inner[i];
        sort_law(p)(query) is None <==> (sorts(query) ==> rows_bounded(p, query))
    } by {
        lemma_rows_bounded(p, inner[i]);
    }
}

/// No blocked identifier stands among the tokens, and nothing escaped.
pub open spec fn tokens_clean(p: PolicyModel, tokens: Seq<TokenModel>) -> bool {
    &&& !has_escape(tokens)
    &&& forall|i: int|
        0 <= i < meaningful(tokens).len() ==> !first_blocked(
            p,
            #[trigger] meaningful(tokens).skip(i),
        )
}

/// The block lists refuse nothing exactly if no token is blocked where it
/// stands.
proof fn lemma_blocked(p: PolicyModel, tokens: Seq<TokenModel>)
    ensures
        blocked_refusal(p, tokens) is None <==> forall|i: int|
            0 <= i < tokens.len() ==> !first_blocked(p, #[trigger] tokens.skip(i)),
    decreases tokens.len(),
{
    if tokens.len() > 0 {
        let rest = tokens.skip(1);
        lemma_blocked(p, rest);
        assert(tokens.skip(0) =~= tokens);
        assert forall|i: int| 0 <= i < rest.len() implies #[trigger] rest.skip(i) == tokens.skip(
            i + 1,
        ) by {
            assert(rest.skip(i) =~= tokens.skip(i + 1));
        }
        assert forall|i: int| 0 < i < tokens.len() implies #[trigger] tokens.skip(i) == rest.skip(
            i - 1,
        ) by {
            assert(rest.skip(i - 1) =~= tokens.skip(i));
        }
    }
}

/// The token gate refuses nothing exactly if the tokens are clean.
proof fn lemma_tokens_clean(p: PolicyModel, tokens: Seq<TokenModel>)
    ensures
        token_refusal(p, tokens) is None <==> tokens_clean(p, tokens),
{
    lemma_blocked(p, meaningful(tokens));
}

/// The query that a statement reads: the statement itself, or what a plain
/// EXPLAIN explains.
pub open spec fn query_read(statement: StatementModel) -> Option<WalkModel> {
    match statement {
        StatementModel::Query(walk) => Some(*walk),
        StatementModel::Explain { statement, analyze, options } => match *statement {
            StatementModel::Query(walk) => if analyze || options_execute(options) {
                None
            } else {
                Some(*walk)
            },
            _ => None,
        },
        StatementModel::Other(_) => None,
    }
}

/// Every query of the list only reads.
pub open spec fn all_sound(p: PolicyModel, queries: Seq<QueryModel>) -> bool {
    forall|i: int| 0 <= i < queries.len() ==> query_sound(p, #[trigger] queries[i])
}

/// The read-only gate refuses nothing exactly if every query only reads.
proof fn lemma_all_sound(p: PolicyModel, queries: Seq<QueryModel>)
    ensures
        first_refusal(read_only_law(p), queries) is None <==> all_sound(p, queries),
{
    lemma_first_refusal(read_only_law(p), queries);
    assert forall|i: int| 0 <= i < queries.len() implies (read_only_law(p)(
        #[trigger] queries[i],
    ) is None <==> query_sound(p, queries[i])) by {
        lemma_query_sound(p, queries[i]);
    }
}

/// The statement is one bounded, read-only query or a plain EXPLAIN of one; a
/// query also names its aggregates, if the policy asks for that.
pub open spec fn statement_accepted(p: PolicyModel, statement: StatementModel) -> bool {
    &&& query_read(statement) matches Some(walk)
    &&& all_sound(p, walked(walk))
    &&& work_bounded(p, walk)
    &&& p.require_aggregate_aliases && statement is Query ==> !lacks_alias(walk.query)
}

/// The text is one accepted statement with clean tokens.
pub open spec fn sql_accepted(p: PolicyModel, sql: Seq<char>) -> bool {
    &&& parsed_statements(sql) matches Ok(statements)
    &&& statements.len() == 1
    &&& statement_accepted(p, statements[0])
    &&& tokens_of(sql) matches Ok(tokens)
    &&& tokens_clean(p, tokens)
}

/// A statement is refused exactly if it is not accepted, whatever number it
/// has.
pub proof fn law_statement_accepted_exactly(p: PolicyModel, index: nat, statement: StatementModel)
    ensures
        statement_refusal(p, index, statement) is None <==> statement_accepted(p, statement),
{
    match statement {
        StatementModel::Query(walk) => {
            lemma_all_sound(p, walked(*walk));
            lemma_work_bounded(p, *walk);
        },
        StatementModel::Explain { statement: inner, .. } => {
            if let StatementModel::Query(walk) = *inner {
                lemma_all_sound(p, walked(*walk));
                lemma_work_bounded(p, *walk);
            }
        },
        StatementModel::Other(_) => {},
    }
}

/// A text passes exactly if it is one bounded, read-only statement that no
/// block list touches: nothing else passes, and every such text does.
pub proof fn law_accepted_exactly(p: PolicyModel, sql: Seq<char>)
    ensures
        sql_refusal(p, sql) is None <==> sql_accepted(p, sql),
{
    if let Ok(statements) = parsed_statements(sql) {
        if statements.len() == 1 {
            law_statement_accepted_exactly(p, 0, statements[0]);
        }
        if let Ok(tokens) = tokens_of(sql) {
            lemma_tokens_clean(p, tokens);
        }
    }
}

/// The class is refused without a name: it shows something, or serves the
/// server, its storage and its extensions. It is none of those that write,
/// define, grant, set up a session, control a transaction or move a cursor.
pub open spec fn is_unnamed(kind: StatementKind) -> bool {
    match kind {
        StatementKind::AttachDatabase
        | StatementKind::AttachDuckDatabase
        | StatementKind::DetachDuckDatabase
        | StatementKind::ShowFunctions
        | StatementKind::ShowVariable
        | StatementKind::ShowStatus
        | StatementKind::ShowVariables
        | StatementKind::ShowCreate
        | StatementKind::ShowColumns
        | StatementKind::ShowDatabases
        | StatementKind::ShowSchemas
        | StatementKind::ShowTables
        | StatementKind::ShowViews
        | StatementKind::ShowCollation
        | StatementKind::Flush
        | StatementKind::Kill
        | StatementKind::Install
        | StatementKind::Load
        | StatementKind::Pragma
        | StatementKind::Assert
        | StatementKind::Msck
        | StatementKind::Cache
        | StatementKind::Uncache
        | StatementKind::Unload
        | StatementKind::OptimizeTable
        | StatementKind::LockTables
        | StatementKind::UnlockTables => true,
        _ => false,
    }
}

/// Every class of statements but queries and EXPLAIN is refused, whatever the
/// policy says, and by name: every write, every definition, every grant, and
/// whatever is of a session, a transaction or a cursor.
pub proof fn law_other_classes_are_refused(p: PolicyModel, index: nat, kind: StatementKind)
    ensures
        statement_refusal(p, index, StatementModel::Other(kind)) == Some(
            class_refused(index, class_name(kind)),
        ),
        class_name(kind).len() > 0,
        class_name(kind) == "Unknown statement type"@ <==> is_unnamed(kind),
{
    reveal_strlit("Unknown statement type");
    reveal_strlit("SELECT");
    reveal_strlit("EXPLAIN");
    reveal_strlit("LISTEN/NOTIFY");
    reveal_strlit("ANALYZE");
    reveal_strlit("EXPLAIN TABLE");
    reveal_strlit("Cursor operations");
    reveal_strlit("INSERT");
    reveal_strlit("UPDATE");
    reveal_strlit("DELETE");
    reveal_strlit("TRUNCATE");
    reveal_strlit("MERGE");
    reveal_strlit("GRANT");
    reveal_strlit("REVOKE");
    reveal_strlit("COPY");
    reveal_strlit("CREATE");
    reveal_strlit("COMMENT");
    reveal_strlit("ALTER");
    reveal_strlit("EXECUTE/CALL");
    reveal_strlit("PREPARE/DEALLOCATE");
    reveal_strlit("DROP");
    reveal_strlit("SET");
    reveal_strlit("Transaction control");
    reveal_strlit("USE");
    reveal_strlit("DISCARD");
}

/// EXPLAIN that executes is refused: with the keyword ANALYZE, or with an
/// ANALYZE option that is not switched off by the literal FALSE.
pub proof fn law_explain_analyze_is_refused(
    p: PolicyModel,
    index: nat,
    statement: StatementModel,
    analyze: bool,
    options: Option<Seq<ExplainOptionModel>>,
)
    requires
        analyze || options_execute(options),
    ensures
        statement_refusal(
            p,
            index,
            StatementModel::Explain { statement: Box::new(statement), analyze, options },
        ) is Some,
{
}

/// The query that an accepted text reads.
pub open spec fn accepted_walk(sql: Seq<char>) -> WalkModel {
    query_read(parsed_statements(sql)->Ok_0[0])->0
}

/// An accepted text is one statement, and what it reads only reads: no row
/// locks, no INTO, no data-modifying part, and only admitted relations, all
/// through WITH clauses, set operations, derived tables and joins.
pub proof fn law_accepted_only_reads(p: PolicyModel, sql: Seq<char>)
    requires
        sql_refusal(p, sql) is None,
    ensures
        parsed_statements(sql) is Ok,
        parsed_statements(sql)->Ok_0.len() == 1,
        query_read(parsed_statements(sql)->Ok_0[0]) is Some,
        query_sound(p, accepted_walk(sql).query),
{
    law_accepted_exactly(p, sql);
    assert(walked(accepted_walk(sql))[0] == accepted_walk(sql).query);
}

/// The query of an accepted text hands back a bounded number of rows.
pub proof fn law_accepted_rows_are_bounded(p: PolicyModel, sql: Seq<char>)
    requires
        sql_refusal(p, sql) is None,
    ensures
        rows_bounded(p, accepted_walk(sql).query),
{
    law_accepted_exactly(p, sql);
}

/// Every query in an accepted text, however deep, only reads, has a literal
/// OFFSET within the cap or none, no set-returning function in its SELECT lists,
/// and no cartesian product among its joins.
pub proof fn law_accepted_at_every_depth(p: PolicyModel, sql: Seq<char>, i: int)
    requires
        sql_refusal(p, sql) is None,
        0 <= i < walked(accepted_walk(sql)).len(),
    ensures
        query_admitted(p, walked(accepted_walk(sql))[i]),
{
    law_accepted_exactly(p, sql);
}

/// Every nested query in an accepted text that sorts is bounded by itself.
pub proof fn law_accepted_sorts_are_bounded(p: PolicyModel, sql: Seq<char>, i: int)
    requires
        sql_refusal(p, sql) is None,
        0 <= i < nested(accepted_walk(sql)).len(),
        sorts(nested(accepted_walk(sql))[i]),
    ensures
        rows_bounded(p, nested(accepted_walk(sql))[i]),
{
    law_accepted_exactly(p, sql);
}

/// Nested queries are walked too: whatever holds of every walked query holds
/// of every nested one.
pub proof fn law_nested_is_walked(walk: WalkModel, query: QueryModel)
    requires
        nested(walk).contains(query),
    ensures
        walked(walk).contains(query),
    decreases walk,
{
    let k = choose|k: int| 0 <= k < nested(walk).len() && nested(walk)[k] == query;
    let w = walk.in_with.len() as int;
    let b = nested_in_body(walk.body).len() as int;
    let wb = walked_in_body(walk.body);
    if k < w {
        assert(walked(walk)[1 + k] == query);
    } else if k < w + b {
        assert(nested_in_body(walk.body)[k - w] == query);
        assert(wb.contains(query)) by {
            if let WalkBodyModel::Parenthesized(inner) = walk.body {
                assert(nested(*inner).contains(query));
                law_nested_is_walked(*inner, query);
            }
        }
        let m = choose|m: int| 0 <= m < wb.len() && wb[m] == query;
        assert(walked(walk)[1 + w + m] == query);
    } else {
        assert(walk.in_clauses[k - w - b] == query);
        assert(walked(walk)[1 + w + wb.len() + (k - w - b)] == query);
    }
}

/// What holds at every depth holds of every query that the walk meets.
pub proof fn law_accepted_walked(p: PolicyModel, sql: Seq<char>, inner: QueryModel)
    requires
        sql_refusal(p, sql) is None,
        walked(accepted_walk(sql)).contains(inner),
    ensures
        query_admitted(p, inner),
{
    let all = walked(accepted_walk(sql));
    let i = choose|i: int| 0 <= i < all.len() && all[i] == inner;
    law_accepted_at_every_depth(p, sql, i);
}

/// The tokens of an accepted text hold no blocked identifier where it stands,
/// and no Unicode-escaped one.
pub proof fn law_accepted_tokens_are_clean(p: PolicyModel, sql: Seq<char>)
    requires
        sql_refusal(p, sql) is None,
    ensures
        tokens_of(sql) is Ok,
        tokens_clean(p, tokens_of(sql)->Ok_0),
{
    law_accepted_exactly(p, sql);
}

/// If the policy asks for aliases, every output column of an accepted query
/// that computes an aggregate carries one.
pub proof fn law_accepted_aggregates_are_named(p: PolicyModel, sql: Seq<char>)
    requires
        sql_refusal(p, sql) is None,
        p.require_aggregate_aliases,
        parsed_statements(sql)->Ok_0[0] is Query,
    ensures
        !lacks_alias(accepted_walk(sql).query),
{
    law_accepted_exactly(p, sql);
}

/// The default policy admits no table-valued function in FROM, and requires
/// aliases.
pub proof fn law_default_admits_no_function(name: NameModel)
    ensures
        !table_call_admitted(default_policy(), name, false),
        default_policy().require_aggregate_aliases,
{
}

/// The default policy refuses tokens that name anything of the families `pg_`,
/// `dblink`, `lo_` and `binary_upgrade_`, in any case, quoted or not.
pub proof fn law_default_blocks_families(tokens: Seq<TokenModel>, i: int, name: Seq<char>)
    requires
        0 <= i < tokens.len(),
        identifier_of(tokens[i]) == Some(name),
        "pg_"@.is_prefix_of(lower(name)) || "dblink"@.is_prefix_of(lower(name))
            || "lo_"@.is_prefix_of(lower(name)) || "binary_upgrade_"@.is_prefix_of(lower(name)),
    ensures
        token_refusal(default_policy(), tokens) is Some,
{
    let p = default_policy();
    let prefixes = p.blocked_identifier_prefixes;
    let found = meaningful(tokens);
    assert(prefixes[0] == "binary_upgrade_"@);
    assert(prefixes[1] == "dblink"@);
    assert(prefixes[2] == "lo_"@);
    assert(prefixes[3] == "pg_"@);
    assert(begins_with_one(lower(name), prefixes));
    let kept = |t: TokenModel| !(t is Whitespace);
    assert(found.contains(tokens[i])) by {
        tokens.lemma_filter_contains(kept, i);
    }
    let k = choose|k: int| 0 <= k < found.len() && found[k] == tokens[i];
    assert(first_blocked(p, found.skip(k)));
    lemma_tokens_clean(p, tokens);
}

/// Both policies speak of the same functions.
pub open spec fn same_vocabulary(p: PolicyModel, q: PolicyModel) -> bool {
    &&& p.bounded_table_functions == q.bounded_table_functions
    &&& p.safe_lateral_functions == q.safe_lateral_functions
    &&& p.set_returning_functions == q.set_returning_functions
}

/// Every text of `smaller` is one of `larger`.
pub open spec fn covers(larger: Seq<Seq<char>>, smaller: Seq<Seq<char>>) -> bool {
    forall|i: int| 0 <= i < smaller.len() ==> larger.contains(#[trigger] smaller[i])
}

/// `strict` speaks of the same functions as `p`, has no larger cap, no shorter
/// block list, and requires aliases if `p` does.
pub open spec fn at_least_as_strict(strict: PolicyModel, p: PolicyModel) -> bool {
    &&& same_vocabulary(strict, p)
    &&& strict.max_limit <= p.max_limit
    &&& covers(strict.blocked_schema_qualifiers, p.blocked_schema_qualifiers)
    &&& covers(strict.blocked_identifiers, p.blocked_identifiers)
    &&& covers(strict.blocked_identifier_prefixes, p.blocked_identifier_prefixes)
    &&& covers(strict.blocked_bare_identifiers, p.blocked_bare_identifiers)
    &&& covers(strict.blocked_function_identifiers, p.blocked_function_identifiers)
    &&& p.require_aggregate_aliases ==> strict.require_aggregate_aliases
}

/// Row sources depend on the vocabulary alone.
proof fn lemma_same_row_sources(p: PolicyModel, q: PolicyModel, e: ExprModel)
    requires
        same_vocabulary(p, q),
    ensures
        has_row_source(p, e) == has_row_source(q, e),
{
    assert forall|i: int| 0 <= i < e.visited.len() implies is_row_source(p, #[trigger] e.visited[i])
        == is_row_source(q, e.visited[i]) by {}
}

/// Soundness of arguments depends on the vocabulary alone.
proof fn lemma_same_args(p: PolicyModel, q: PolicyModel, args: Seq<ArgModel>)
    requires
        same_vocabulary(p, q),
    ensures
        args_sound(p, args) == args_sound(q, args),
{
    assert forall|i: int| 0 <= i < args.len() implies arg_sound(p, #[trigger] args[i]) == arg_sound(
        q,
        args[i],
    ) by {
        if let ArgModel::Expr(e) = args[i] {
            lemma_same_row_sources(p, q, e);
        }
    }
}

/// Soundness of a relation depends on the vocabulary alone.
proof fn lemma_same_table(p: PolicyModel, q: PolicyModel, table: TableModel, lateral: bool)
    requires
        same_vocabulary(p, q),
    ensures
        table_sound(p, table, lateral) == table_sound(q, table, lateral),
    decreases table,
{
    match table {
        TableModel::Table { args, .. } => {
            if let Some(list) = args {
                lemma_same_args(p, q, list.args);
            }
        },
        TableModel::Function { arguments, .. } => {
            lemma_same_args(p, q, arguments);
        },
        TableModel::Derived(query) => {
            lemma_same_query(p, q, *query);
        },
        TableModel::NestedJoin(from) => {
            lemma_same_from(p, q, *from);
        },
        TableModel::Pivot(inner) => {
            lemma_same_table(p, q, *inner, false);
        },
        TableModel::Unpivot(inner) => {
            lemma_same_table(p, q, *inner, false);
        },
        TableModel::MatchRecognize(inner) => {
            lemma_same_table(p, q, *inner, false);
        },
        _ => {},
    }
}

/// Soundness of a joined relation depends on the vocabulary alone.
proof fn lemma_same_join(p: PolicyModel, q: PolicyModel, join: JoinModel)
    requires
        same_vocabulary(p, q),
    ensures
        join_sound(p, join) == join_sound(q, join),
    decreases join,
{
    assert(safe_lateral_join(p, join) == safe_lateral_join(q, join));
    lemma_same_table(p, q, join.relation, safe_lateral_join(p, join));
}

/// Soundness of an entry of FROM depends on the vocabulary alone.
proof fn lemma_same_from(p: PolicyModel, q: PolicyModel, from: FromModel)
    requires
        same_vocabulary(p, q),
    ensures
        from_sound(p, from) == from_sound(q, from),
    decreases from,
{
    lemma_same_table(p, q, from.relation, false);
    assert forall|i: int| 0 <= i < from.joins.len() implies join_sound(p, #[trigger] from.joins[i])
        == join_sound(q, from.joins[i]) by {
        assert(decreases_to!(from => from.joins));
        assert(decreases_to!(from.joins => from.joins[i]));
        lemma_same_join(p, q, from.joins[i]);
    }
}

/// Soundness of a body depends on the vocabulary alone.
proof fn lemma_same_body(p: PolicyModel, q: PolicyModel, body: BodyModel)
    requires
        same_vocabulary(p, q),
    ensures
        body_sound(p, body) == body_sound(q, body),
    decreases body,
{
    match body {
        BodyModel::Select(select) => {
            lemma_same_select(p, q, *select);
        },
        BodyModel::Query(query) => {
            lemma_same_query(p, q, *query);
        },
        BodyModel::SetOperation { left, right } => {
            lemma_same_body(p, q, *left);
            lemma_same_body(p, q, *right);
        },
        _ => {},
    }
}

/// Soundness of a SELECT depends on the vocabulary alone.
proof fn lemma_same_select(p: PolicyModel, q: PolicyModel, select: SelectModel)
    requires
        same_vocabulary(p, q),
    ensures
        select_sound(p, select) == select_sound(q, select),
    decreases select,
{
    assert forall|i: int| 0 <= i < select.from.len() implies from_sound(
        p,
        #[trigger] select.from[i],
    ) == from_sound(q, select.from[i]) by {
        assert(decreases_to!(select => select.from));
        assert(decreases_to!(select.from => select.from[i]));
        lemma_same_from(p, q, select.from[i]);
    }
}

/// Soundness of a query depends on the vocabulary alone.
proof fn lemma_same_query(p: PolicyModel, q: PolicyModel, query: QueryModel)
    requires
        same_vocabulary(p, q),
    ensures
        query_sound(p, query) == query_sound(q, query),
    decreases query,
{
    if let Some(queries) = query.with {
        assert forall|i: int| 0 <= i < queries.len() implies query_sound(p, #[trigger] queries[i])
            == query_sound(q, queries[i]) by {
            assert(decreases_to!(query => query.with->0));
            assert(decreases_to!(queries => queries[i]));
            lemma_same_query(p, q, queries[i]);
        }
    }
    lemma_same_body(p, q, query.body);
}

/// Which joins are cartesian depends on the vocabulary alone.
proof fn lemma_same_table_joined(p: PolicyModel, q: PolicyModel, table: TableModel)
    requires
        same_vocabulary(p, q),
    ensures
        table_joined(p, table) == table_joined(q, table),
    decreases table,
{
    if let TableModel::NestedJoin(from) = table {
        lemma_same_from_joined(p, q, *from);
    }
}

/// Which joins are cartesian depends on the vocabulary alone.
proof fn lemma_same_join_joined(p: PolicyModel, q: PolicyModel, join: JoinModel)
    requires
        same_vocabulary(p, q),
    ensures
        join_joined(p, join) == join_joined(q, join),
    decreases join,
{
    assert(safe_lateral_join(p, join) == safe_lateral_join(q, join));
    lemma_same_table_joined(p, q, join.relation);
}

/// Which joins are cartesian depends on the vocabulary alone.
proof fn lemma_same_from_joined(p: PolicyModel, q: PolicyModel, from: FromModel)
    requires
        same_vocabulary(p, q),
    ensures
        from_joined(p, from) == from_joined(q, from),
    decreases from,
{
    lemma_same_table_joined(p, q, from.relation);
    assert forall|i: int| 0 <= i < from.joins.len() implies join_joined(p, #[trigger] from.joins[i])
        == join_joined(q, from.joins[i]) by {
        assert(decreases_to!(from => from.joins));
        assert(decreases_to!(from.joins => from.joins[i]));
        lemma_same_join_joined(p, q, from.joins[i]);
    }
}

/// Which joins are cartesian depends on the vocabulary alone.
proof fn lemma_same_body_joined(p: PolicyModel, q: PolicyModel, body: BodyModel)
    requires
        same_vocabulary(p, q),
    ensures
        body_joined(p, body) == body_joined(q, body),
    decreases body,
{
    match body {
        BodyModel::Select(select) => {
            assert forall|i: int| 0 <= i < select.from.len() implies from_joined(
                p,
                #[trigger] select.from[i],
            ) == from_joined(q, select.from[i]) by {
                lemma_same_from_joined(p, q, select.from[i]);
            }
        },
        BodyModel::SetOperation { left, right } => {
            lemma_same_body_joined(p, q, *left);
            lemma_same_body_joined(p, q, *right);
        },
        _ => {},
    }
}

/// Which SELECT lists compute sets of rows depends on the vocabulary alone.
proof fn lemma_same_lists(p: PolicyModel, q: PolicyModel, body: BodyModel)
    requires
        same_vocabulary(p, q),
    ensures
        projects_rows(p, body) == projects_rows(q, body),
    decreases body,
{
    match body {
        BodyModel::Select(select) => {
            let items = select.projection;
            assert forall|i: int| 0 <= i < items.len() implies item_has_row_source(
                p,
                #[trigger] items[i],
            ) == item_has_row_source(q, items[i]) by {
                match items[i] {
                    SelectItemModel::Unnamed(e) | SelectItemModel::Aliased(e) => {
                        lemma_same_row_sources(p, q, e);
                    },
                    _ => {},
                }
            }
        },
        BodyModel::SetOperation { left, right } => {
            lemma_same_lists(p, q, *left);
            lemma_same_lists(p, q, *right);
        },
        _ => {},
    }
}

/// Which shapes of a query bound its rows depends on the vocabulary alone.
proof fn lemma_same_projection(p: PolicyModel, q: PolicyModel, query: QueryModel)
    requires
        same_vocabulary(p, q),
    ensures
        bounded_by_shape(p, query) == bounded_by_shape(q, query),
{
    if let BodyModel::Select(select) = query.body {
        let items = select.projection;
        assert forall|i: int| 0 <= i < items.len() implies item_has_row_source(
            p,
            #[trigger] items[i],
        ) == item_has_row_source(q, items[i]) && is_scalar(p, items[i]) == is_scalar(
            q,
            items[i],
        ) by {
            match items[i] {
                SelectItemModel::Unnamed(e) | SelectItemModel::Aliased(e) => {
                    lemma_same_row_sources(p, q, e);
                },
                _ => {},
            }
        }
        assert(computes_one_row(p, query) == computes_one_row(q, query));
        assert(reads_bounded_function(p, query) == reads_bounded_function(q, query));
    }
}

/// Rows that are bounded under a strict policy are bounded.
proof fn lemma_stricter_rows(strict: PolicyModel, p: PolicyModel, query: QueryModel)
    requires
        at_least_as_strict(strict, p),
        rows_bounded(strict, query),
    ensures
        rows_bounded(p, query),
{
    lemma_same_projection(strict, p, query);
}

/// Work that is bounded under a strict policy is bounded.
proof fn lemma_stricter_work(strict: PolicyModel, p: PolicyModel, walk: WalkModel)
    requires
        at_least_as_strict(strict, p),
        work_bounded(strict, walk),
    ensures
        work_bounded(p, walk),
{
    lemma_stricter_rows(strict, p, walk.query);
    assert forall|i: int| 0 <= i < walked(walk).len() implies {
        let query = #[trigger] walked(walk)[i];
        &&& offset_within(p, query)
        &&& !projects_rows(p, query.body)
        &&& body_joined(p, query.body)
    } by {
        let query = walked(walk)[i];
        assert(offset_within(strict, query));
        lemma_same_lists(strict, p, query.body);
        lemma_same_body_joined(strict, p, query.body);
    }
    assert forall|i: int|
        0 <= i < nested(walk).len() && sorts(#[trigger] nested(walk)[i]) implies rows_bounded(
        p,
        nested(walk)[i],
    ) by {
        lemma_stricter_rows(strict, p, nested(walk)[i]);
    }
}

/// What a strict policy does not block, no other does.
proof fn lemma_stricter_tokens(strict: PolicyModel, p: PolicyModel, tokens: Seq<TokenModel>)
    requires
        at_least_as_strict(strict, p),
        first_blocked(p, tokens),
    ensures
        first_blocked(strict, tokens),
{
    let ident = lower(identifier_of(tokens[0])->0);
    lemma_covers(strict.blocked_schema_qualifiers, p.blocked_schema_qualifiers, ident);
    lemma_covers(strict.blocked_identifiers, p.blocked_identifiers, ident);
    lemma_covers(strict.blocked_bare_identifiers, p.blocked_bare_identifiers, ident);
    lemma_covers(strict.blocked_function_identifiers, p.blocked_function_identifiers, ident);
    if begins_with_one(ident, p.blocked_identifier_prefixes) {
        let i = choose|i: int|
            0 <= i < p.blocked_identifier_prefixes.len() && (
            #[trigger] p.blocked_identifier_prefixes[i]).is_prefix_of(ident);
        let prefix = p.blocked_identifier_prefixes[i];
        assert(strict.blocked_identifier_prefixes.contains(prefix));
        let j = choose|j: int|
            0 <= j < strict.blocked_identifier_prefixes.len()
                && strict.blocked_identifier_prefixes[j] == prefix;
        assert(strict.blocked_identifier_prefixes[j].is_prefix_of(ident));
    }
}

/// A text of the smaller list is one of the larger.
proof fn lemma_covers(larger: Seq<Seq<char>>, smaller: Seq<Seq<char>>, text: Seq<char>)
    requires
        covers(larger, smaller),
    ensures
        smaller.contains(text) ==> larger.contains(text),
{
}

/// A stricter policy refuses more and never less: longer block lists, a lower
/// cap or required aliases let no text pass that did not pass before.
pub proof fn law_stricter_policies_refuse_more(
    strict: PolicyModel,
    p: PolicyModel,
    sql: Seq<char>,
)
    requires
        at_least_as_strict(strict, p),
        sql_refusal(strict, sql) is None,
    ensures
        sql_refusal(p, sql) is None,
{
    law_accepted_exactly(strict, sql);
    law_accepted_exactly(p, sql);
    let walk = accepted_walk(sql);
    assert forall|i: int| 0 <= i < walked(walk).len() implies query_sound(
        p,
        #[trigger] walked(walk)[i],
    ) by {
        lemma_same_query(strict, p, walked(walk)[i]);
    }
    lemma_stricter_work(strict, p, walk);
    let tokens = tokens_of(sql)->Ok_0;
    assert forall|i: int| 0 <= i < meaningful(tokens).len() implies !first_blocked(
        p,
        #[trigger] meaningful(tokens).skip(i),
    ) by {
        if first_blocked(p, meaningful(tokens).skip(i)) {
            lemma_stricter_tokens(strict, p, meaningful(tokens).skip(i));
        }
    }
}

} // verus!
