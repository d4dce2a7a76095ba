//! Laws on nesting: which queries stand in a query, and that a walk misses none.

use sqlparser::ast;
use vstd::prelude::*;

use crate::gates::{borrowed_models, complete, statement_complete, walked};
use crate::parse_error::ParserError;
use crate::read_laws::{
    part_in_body, part_in_from, part_in_join, part_in_query, part_in_select, part_in_table,
    ReadPart,
};
use crate::reader::{querying, statements_read, tokens_read, walks_expressions, well_read};
use crate::shape::{literal_variants, marked_statements};
use crate::sql::{expressions_of, query_model, statement_kind, statement_model, subquery_of};
use crate::tokens::{borrowed_tokens, meaningful};
use crate::tree::{
    stands_in_body, stands_in_from, stands_in_join, stands_in_query, stands_in_select,
    stands_in_table, stands_in_with, statement_models, token_models, BodyModel, ExplainOptionModel,
    FromModel, JoinModel, JoinOperatorModel, QueryModel, QueryNode, SelectModel, StatementModel,
    StatementNode, TableModel, TokenModel, TokenNode, WalkModel,
};
use crate::validate::kind_of;

verus! {

proof fn lemma_in_table(table: TableModel, crossed: bool, inner: QueryModel)
    ensures
        part_in_table(table, crossed, ReadPart::Query(inner)) <==> stands_in_table(table, inner),
    decreases table,
{
    match table {
        TableModel::Derived(query) => lemma_in_query(*query, inner),
        TableModel::NestedJoin(from) => lemma_in_from(*from, inner),
        TableModel::Pivot(source) => lemma_in_table(*source, false, inner),
        TableModel::Unpivot(source) => lemma_in_table(*source, false, inner),
        TableModel::MatchRecognize(source) => lemma_in_table(*source, false, inner),
        _ => {},
    }
}

proof fn lemma_in_join(join: JoinModel, inner: QueryModel)
    ensures
        part_in_join(join, ReadPart::Query(inner)) <==> stands_in_join(join, inner),
    decreases join,
{
    lemma_in_table(
        join.relation,
        join.operator == JoinOperatorModel::CrossJoin,
        inner,
    );
}

proof fn lemma_in_from(from: FromModel, inner: QueryModel)
    ensures
        part_in_from(from, ReadPart::Query(inner)) <==> stands_in_from(from, inner),
    decreases from,
{
    lemma_in_table(from.relation, false, inner);
    assert forall|i: int| 0 <= i < from.joins.len() implies part_in_join(
        #[trigger] from.joins[i],
        ReadPart::Query(inner),
    ) == stands_in_join(from.joins[i], inner) by {
        lemma_in_join(from.joins[i], inner);
    }
    if exists|i: int| 0 <= i < from.joins.len() && stands_in_join(#[trigger] from.joins[i], inner) {
        let i = choose|i: int|
            0 <= i < from.joins.len() && stands_in_join(#[trigger] from.joins[i], inner);
        assert(part_in_join(from.joins[i], ReadPart::Query(inner)));
    }
    if exists|i: int|
        0 <= i < from.joins.len() && part_in_join(
            #[trigger] from.joins[i],
            ReadPart::Query(inner),
        ) {
        let i = choose|i: int|
            0 <= i < from.joins.len() && part_in_join(
                #[trigger] from.joins[i],
                ReadPart::Query(inner),
            );
        assert(stands_in_join(from.joins[i], inner));
    }
}

proof fn lemma_in_select(select: SelectModel, inner: QueryModel)
    ensures
        part_in_select(select, ReadPart::Query(inner)) <==> stands_in_select(select, inner),
    decreases select,
{
    assert forall|i: int| 0 <= i < select.from.len() implies part_in_from(
        #[trigger] select.from[i],
        ReadPart::Query(inner),
    ) == stands_in_from(select.from[i], inner) by {
        lemma_in_from(select.from[i], inner);
    }
    if stands_in_select(select, inner) {
        let i = choose|i: int|
            0 <= i < select.from.len() && stands_in_from(#[trigger] select.from[i], inner);
        assert(part_in_from(select.from[i], ReadPart::Query(inner)));
    }
    if part_in_select(select, ReadPart::Query(inner)) {
        let i = choose|i: int|
            0 <= i < select.from.len() && part_in_from(
                #[trigger] select.from[i],
                ReadPart::Query(inner),
            );
        assert(stands_in_from(select.from[i], inner));
    }
}

proof fn lemma_in_body(body: BodyModel, inner: QueryModel)
    ensures
        part_in_body(body, ReadPart::Query(inner)) <==> stands_in_body(body, inner),
    decreases body,
{
    match body {
        BodyModel::Select(select) => lemma_in_select(*select, inner),
        BodyModel::Query(query) => lemma_in_query(*query, inner),
        BodyModel::SetOperation { left, right } => {
            lemma_in_body(*left, inner);
            lemma_in_body(*right, inner);
        },
        _ => {},
    }
}

proof fn lemma_in_query(query: QueryModel, inner: QueryModel)
    ensures
        part_in_query(query, ReadPart::Query(inner)) <==> query == inner || stands_in_query(
            query,
            inner,
        ),
    decreases query,
{
    lemma_in_body(query.body, inner);
    if let Some(queries) = query.with {
        assert forall|i: int| 0 <= i < queries.len() implies part_in_query(
            #[trigger] queries[i],
            ReadPart::Query(inner),
        ) == (queries[i] == inner || stands_in_query(queries[i], inner)) by {
            lemma_in_query(queries[i], inner);
        }
        if stands_in_with(query.with, inner) {
            let i = choose|i: int|
                0 <= i < queries.len() && (#[trigger] queries[i] == inner || stands_in_query(
                    queries[i],
                    inner,
                ));
            assert(part_in_query(queries[i], ReadPart::Query(inner)));
        }
        if exists|i: int|
            0 <= i < queries.len() && part_in_query(#[trigger] queries[i], ReadPart::Query(inner)) {
            let i = choose|i: int|
                0 <= i < queries.len() && part_in_query(
                    #[trigger] queries[i],
                    ReadPart::Query(inner),
                );
            assert(queries[i] == inner || stands_in_query(queries[i], inner));
        }
    }
}

/// The queries that stand in a query are its parts that are queries, but for
/// itself.
pub proof fn law_nested_queries_are_parts(query: QueryModel, inner: QueryModel)
    ensures
        part_in_query(query, ReadPart::Query(inner)) <==> query == inner || stands_in_query(
            query,
            inner,
        ),
{
    lemma_in_query(query, inner);
}

/// A complete walk meets every query that is a part of the walked one.
pub proof fn law_complete_walks_miss_nothing(walk: WalkModel, inner: QueryModel)
    requires
        complete(walk),
        part_in_query(walk.query, ReadPart::Query(inner)),
    ensures
        walked(walk).contains(inner),
{
    lemma_in_query(walk.query, inner);
    if inner == walk.query {
        assert(walked(walk)[0] == inner);
    }
}

/// A statement is complete if its walk is, and an EXPLAIN if what it explains
/// is.
pub proof fn law_complete_statements(
    walk: WalkModel,
    inner: StatementModel,
    analyze: bool,
    options: Option<Seq<ExplainOptionModel>>,
)
    ensures
        statement_complete(StatementModel::Query(Box::new(walk))) ==> forall|q: QueryModel|
         #[trigger]
            part_in_query(walk.query, ReadPart::Query(q)) ==> walked(walk).contains(q),
        statement_complete(
            (StatementModel::Explain { statement: Box::new(inner), analyze, options }),
        ) == statement_complete(inner),
{
    if statement_complete(StatementModel::Query(Box::new(walk))) {
        assert forall|q: QueryModel| #[trigger]
            part_in_query(walk.query, ReadPart::Query(q)) implies walked(walk).contains(q) by {
            law_complete_walks_miss_nothing(walk, q);
        }
    }
}

/// Of a statement that is read well, every subquery that stands in an
/// expression of its query is walked, its class is that of the statement, and
/// an EXPLAIN holds what it explains.
pub proof fn law_statements_are_read_well(statement: ast::Statement, e: ast::Expr, q: ast::Query)
    requires
        well_read(statement),
    ensures
        kind_of(statement_model(statement)) == statement_kind(statement),
        expressions_of(seq![querying(statement)]).contains(e) && subquery_of(e) == Some(q) ==> (
        statement_model(querying(statement)) matches StatementModel::Query(walk) ==> walked(
            *walk,
        ).contains(query_model(q))),
        statement_model(statement) matches StatementModel::Explain { statement: inner, .. }
            ==> *inner == statement_model(querying(statement)),
{
    assert(walks_expressions(querying(statement)));
}

/// What was read is given as it is, one for one.
pub proof fn law_results_are_given_as_they_are(
    statements: Vec<StatementNode>,
    tokens: Vec<TokenNode>,
    error: ParserError,
    text: String,
    queries: Seq<&QueryNode>,
    borrowed: Seq<&TokenNode>,
    i: int,
)
    ensures
        statements_read(Ok(statements)) is Ok,
        statements_read(Ok(statements))->Ok_0 == statement_models(statements@),
        statements_read(Err(error)) is Err,
        statements_read(Err(error))->Err_0 == error.model(),
        tokens_read(Ok(tokens)) is Ok,
        tokens_read(Ok(tokens))->Ok_0 == token_models(tokens@),
        tokens_read(Err(text)) is Err,
        tokens_read(Err(text))->Err_0 == text@,
        borrowed_models(queries).len() == queries.len(),
        0 <= i < queries.len() ==> borrowed_models(queries)[i] == queries[i].model(),
        borrowed_tokens(borrowed).len() == borrowed.len(),
        0 <= i < borrowed.len() ==> borrowed_tokens(borrowed)[i] == borrowed[i].model(),
{
}

/// Meaningful tokens are all but white space, in order.
pub proof fn law_meaningful_tokens(tokens: Seq<TokenModel>, next: TokenModel)
    ensures
        meaningful(Seq::empty()) == Seq::<TokenModel>::empty(),
        meaningful(tokens.push(next)) == if next is Whitespace {
            meaningful(tokens)
        } else {
            meaningful(tokens).push(next)
        },
{
    reveal(Seq::filter);
    assert(tokens.push(next).drop_last() =~= tokens);
}

/// Statements that become the same under one mark are variants of each other,
/// and nothing else is.
pub proof fn law_variants(a: Seq<ast::Statement>, b: Seq<ast::Statement>, mark: Seq<char>)
    ensures
        marked_statements(a, mark) == marked_statements(b, mark) ==> literal_variants(a, b),
        literal_variants(a, b) == literal_variants(b, a),
        literal_variants(a, a),
        (forall|m: Seq<char>| #[trigger] marked_statements(a, m) != marked_statements(b, m))
            ==> !literal_variants(a, b),
{
    assert(marked_statements(a, mark) == marked_statements(a, mark));
    if literal_variants(a, b) {
        let m = choose|m: Seq<char>| #[trigger]
            marked_statements(a, m) == marked_statements(b, m);
        assert(marked_statements(b, m) == marked_statements(a, m));
    }
    if literal_variants(b, a) {
        let m = choose|m: Seq<char>| #[trigger]
            marked_statements(b, m) == marked_statements(a, m);
        assert(marked_statements(a, m) == marked_statements(b, m));
    }
}

} // verus!
