//! Laws on what is told: everything that can be said against a statement is
//! listed in the order in which it stands, and the first of it is told.

use vstd::prelude::*;

use crate::aggregates::lacks_alias;
use crate::bounds::{query_limit_refusal, query_offset_refusal};
use crate::calls::{has_row_source, has_subquery};
use crate::gates::{
    cartesian_law, first_refusal, nested, offset_law, projection_law, projects_rows, read_only_law,
    sort_law, walked, QueryLaw,
};
use crate::join_laws::{law_crossing, law_products_are_what_multiplies, may_be_crossed, multiplies};
use crate::joins::{
    body_cartesian_refusal, cartesian_refused, from_cartesian_refusal, froms_cartesian_refusal,
    join_cartesian_refusal, joins_cartesian_refusal, nested_join_refusal, nested_joins_refusal,
    select_cartesian_refusal, table_cartesian_refusal,
};
use crate::limit_laws::{
    carries_query, ends_in, gives_rows, law_expressions_are_searched_to_the_bottom, lists,
};
use crate::policy::PolicyModel;
use crate::read_laws::law_listed_names;
use crate::refusal::or_else;
use crate::relations::{
    arg_refusal, args_refusal, body_refusal, from_refusal, froms_refusal, join_refusal,
    joins_refusal, kind_name, queries_refusal, query_refusal, select_refusal, table_call_refusal,
    table_refusal,
};
use crate::statement_laws::would_execute;
use crate::text::decimal;
use crate::tree::{
    ArgModel, BodyModel, ExplainOptionModel, FromModel, JoinModel, JoinOperatorModel, NameModel,
    QueryModel, SelectModel, StatementModel, TableArgsModel, TableModel, VisitedModel,
    WalkBodyModel, WalkModel,
};
use crate::validate::{kind_of, option_executes, options_execute, statement_refusal, work_refusal};

verus! {

/// Things that can be said, in order.
pub type Complaints = Seq<Seq<char>>;

/// What is told: the first complaint.
pub open spec fn told(complaints: Complaints) -> Option<Seq<char>> {
    if complaints.len() == 0 {
        None
    } else {
        Some(complaints[0])
    }
}

/// The complaint, if there is cause for it.
pub open spec fn where_so(cause: bool, complaint: Seq<char>) -> Complaints {
    if cause {
        seq![complaint]
    } else {
        Seq::empty()
    }
}

/// Of two lists of complaints the first of the first is told.
proof fn lemma_told(a: Complaints, b: Complaints)
    ensures
        told(a + b) == or_else(told(a), told(b)),
{
    if a.len() > 0 {
        assert((a + b)[0] == a[0]);
    } else {
        assert(a + b =~= b);
    }
}

// ---------------------------------------------------------------------------
// Reading
// ---------------------------------------------------------------------------

/// What can be said against an argument of a table function: it carries a
/// query, it gives rows, it is a wildcard.
pub open spec fn against_arg(p: PolicyModel, name: NameModel, arg: ArgModel) -> Complaints {
    let named = "Table-valued function `"@ + name.text;
    match arg {
        ArgModel::Expr(e) => where_so(
            exists|i: int| 0 <= i < e.visited.len() && carries_query(#[trigger] e.visited[i]),
            named + "` arguments may not contain subqueries on this SQL surface."@,
        ) + where_so(
            exists|i: int|
                0 <= i < e.visited.len() && (
                #[trigger] e.visited[i] matches VisitedModel::Call(call) && gives_rows(
                    p,
                    call.name,
                )),
            named + "` arguments may not contain set-returning functions on this SQL surface."@,
        ),
        ArgModel::QualifiedWildcard | ArgModel::Wildcard => seq![
            named + "` arguments may not use wildcard arguments on this SQL surface."@,
        ],
    }
}

/// Against the arguments, the first first.
pub open spec fn against_args(p: PolicyModel, name: NameModel, args: Seq<ArgModel>) -> Complaints
    decreases args.len(),
{
    if args.len() == 0 {
        Seq::empty()
    } else {
        against_arg(p, name, args[0]) + against_args(
            p,
            name,
            args.subrange(1, args.len() as int),
        )
    }
}

/// Against a call in FROM: that it may not stand there, that it has settings,
/// then its arguments.
pub open spec fn against_call(
    p: PolicyModel,
    name: NameModel,
    lateral: bool,
    settings: bool,
    args: Seq<ArgModel>,
) -> Complaints {
    let named = "Table-valued function `"@ + name.text;
    where_so(
        !lists(p.bounded_table_functions, name) && !(lateral && (ends_in(
            name,
            "regexp_split_to_table"@,
        ) || lists(p.safe_lateral_functions, name))),
        named + "` is not allowed on this SQL surface."@,
    ) + where_so(settings, named + "` settings are not allowed on this SQL surface."@)
        + against_args(p, name, args)
}

/// Against a relation, with or without the calls that are safe in a LATERAL join.
pub open spec fn against_table(p: PolicyModel, table: TableModel, lateral: bool) -> Complaints
    decreases table,
{
    match table {
        TableModel::Table { name, args } => match args {
            Some(list) => against_call(p, name, lateral, list.settings, list.args),
            None => Seq::empty(),
        },
        TableModel::Function { name, arguments, .. } => against_call(
            p,
            name,
            lateral,
            false,
            arguments,
        ),
        TableModel::TableFunction => seq![
            "Table-valued function `"@ + "TABLE(...)"@ + "` is not allowed on this SQL surface."@,
        ],
        TableModel::Unnest => seq![
            "Table-valued function `"@ + "UNNEST"@ + "` is not allowed on this SQL surface."@,
        ],
        TableModel::JsonTable => seq![
            "Table-valued function `"@ + "JSON_TABLE"@ + "` is not allowed on this SQL surface."@,
        ],
        TableModel::Derived(query) => against_query(p, *query),
        TableModel::NestedJoin(from) => against_from(p, *from),
        TableModel::Pivot(inner) => against_table(p, *inner, false),
        TableModel::Unpivot(inner) => against_table(p, *inner, false),
        TableModel::MatchRecognize(inner) => against_table(p, *inner, false),
    }
}

/// Against the relations of joins, the first first.
pub open spec fn against_joins(p: PolicyModel, joins: Seq<JoinModel>) -> Complaints
    decreases joins,
{
    if joins.len() == 0 {
        Seq::empty()
    } else {
        against_join(p, joins[0]) + against_joins(p, joins.subrange(1, joins.len() as int))
    }
}

/// Against the relation of a join, which may be crossed with what is safe there.
pub open spec fn against_join(p: PolicyModel, join: JoinModel) -> Complaints
    decreases join,
{
    against_table(
        p,
        join.relation,
        join.operator == JoinOperatorModel::CrossJoin && may_be_crossed(p, join.relation),
    )
}

/// Against an entry of FROM: its relation, then its joins.
pub open spec fn against_from(p: PolicyModel, from: FromModel) -> Complaints
    decreases from,
{
    against_table(p, from.relation, false) + against_joins(p, from.joins)
}

/// Against the entries of FROM, the first first.
pub open spec fn against_froms(p: PolicyModel, froms: Seq<FromModel>) -> Complaints
    decreases froms,
{
    if froms.len() == 0 {
        Seq::empty()
    } else {
        against_from(p, froms[0]) + against_froms(p, froms.subrange(1, froms.len() as int))
    }
}

/// Against a SELECT: that it writes what it selects, then its FROM.
pub open spec fn against_select(p: PolicyModel, select: SelectModel) -> Complaints
    decreases select,
{
    where_so(select.into, "SELECT ... INTO is not allowed"@) + against_froms(p, select.from)
}

/// Against a body: of a set operation the left side first.
pub open spec fn against_body(p: PolicyModel, body: BodyModel) -> Complaints
    decreases body,
{
    match body {
        BodyModel::Select(select) => against_select(p, *select),
        BodyModel::Query(query) => against_query(p, *query),
        BodyModel::SetOperation { left, right } => against_body(p, *left) + against_body(p, *right),
        BodyModel::Values | BodyModel::Table => Seq::empty(),
        BodyModel::Insert(kind) | BodyModel::Update(kind) => seq![
            "data-modifying queries are not allowed (found "@ + kind_name(kind)
                + " inside a query)"@,
        ],
    }
}

/// Against queries, the first first.
pub open spec fn against_queries(p: PolicyModel, queries: Seq<QueryModel>) -> Complaints
    decreases queries,
{
    if queries.len() == 0 {
        Seq::empty()
    } else {
        against_query(p, queries[0]) + against_queries(
            p,
            queries.subrange(1, queries.len() as int),
        )
    }
}

/// Against a query: that it locks, then its WITH clause, then its body.
pub open spec fn against_query(p: PolicyModel, query: QueryModel) -> Complaints
    decreases query,
{
    where_so(query.locks > 0, "SELECT ... FOR UPDATE/SHARE is not allowed"@) + (match query.with {
        Some(queries) => against_queries(p, queries),
        None => Seq::empty(),
    }) + against_body(p, query.body)
}

proof fn lemma_told_of_args(p: PolicyModel, name: NameModel, args: Seq<ArgModel>)
    ensures
        args_refusal(p, name, args) == told(against_args(p, name, args)),
    decreases args.len(),
{
    if args.len() > 0 {
        let rest = args.subrange(1, args.len() as int);
        assert(rest =~= args.skip(1));
        lemma_told_of_args(p, name, rest);
        lemma_told(against_arg(p, name, args[0]), against_args(p, name, rest));
        if let ArgModel::Expr(e) = args[0] {
            law_expressions_are_searched_to_the_bottom(p, e);
            let named = "Table-valued function `"@ + name.text;
            lemma_told(
                where_so(
                    has_subquery(e),
                    named + "` arguments may not contain subqueries on this SQL surface."@,
                ),
                where_so(
                    has_row_source(p, e),
                    named
                        + "` arguments may not contain set-returning functions on this SQL surface."@,
                ),
            );
        }
        assert(arg_refusal(p, name, args[0]) == told(against_arg(p, name, args[0])));
    }
}

proof fn lemma_told_of_table(p: PolicyModel, table: TableModel, lateral: bool)
    ensures
        table_refusal(p, table, lateral) == told(against_table(p, table, lateral)),
    decreases table,
{
    match table {
        TableModel::Table { name, args } => {
            if let Some(list) = args {
                lemma_told_of_call(p, name, lateral, Some(list), list.settings, list.args);
            }
        },
        TableModel::Function { name, arguments, .. } => {
            lemma_told_of_call(p, name, lateral, None, false, arguments);
        },
        TableModel::Derived(query) => lemma_told_of_query(p, *query),
        TableModel::NestedJoin(from) => lemma_told_of_from(p, *from),
        TableModel::Pivot(inner) => lemma_told_of_table(p, *inner, false),
        TableModel::Unpivot(inner) => lemma_told_of_table(p, *inner, false),
        TableModel::MatchRecognize(inner) => lemma_told_of_table(p, *inner, false),
        _ => {},
    }
}

proof fn lemma_told_of_call(
    p: PolicyModel,
    name: NameModel,
    lateral: bool,
    list: Option<TableArgsModel>,
    settings: bool,
    args: Seq<ArgModel>,
)
    requires
        list matches Some(l) ==> l.settings == settings && l.args == args,
        list is None ==> !settings,
    ensures
        told(against_call(p, name, lateral, settings, args)) == or_else(
            table_call_refusal(p, name, list, lateral),
            args_refusal(p, name, args),
        ),
{
    let named = "Table-valued function `"@ + name.text;
    let first = where_so(
        !lists(p.bounded_table_functions, name) && !(lateral && (ends_in(
            name,
            "regexp_split_to_table"@,
        ) || lists(p.safe_lateral_functions, name))),
        named + "` is not allowed on this SQL surface."@,
    );
    let second = where_so(settings, named + "` settings are not allowed on this SQL surface."@);
    law_listed_names(p, name);
    lemma_told(first, second);
    lemma_told(first + second, against_args(p, name, args));
    lemma_told_of_args(p, name, args);
}

proof fn lemma_told_of_joins(p: PolicyModel, joins: Seq<JoinModel>)
    ensures
        joins_refusal(p, joins) == told(against_joins(p, joins)),
    decreases joins,
{
    if joins.len() > 0 {
        let rest = joins.subrange(1, joins.len() as int);
        lemma_told_of_join(p, joins[0]);
        lemma_told_of_joins(p, rest);
        lemma_told(against_join(p, joins[0]), against_joins(p, rest));
    }
}

proof fn lemma_told_of_join(p: PolicyModel, join: JoinModel)
    ensures
        join_refusal(p, join) == told(against_join(p, join)),
    decreases join,
{
    law_crossing(p, join);
    lemma_told_of_table(
        p,
        join.relation,
        join.operator == JoinOperatorModel::CrossJoin && may_be_crossed(p, join.relation),
    );
}

proof fn lemma_told_of_from(p: PolicyModel, from: FromModel)
    ensures
        from_refusal(p, from) == told(against_from(p, from)),
    decreases from,
{
    lemma_told_of_table(p, from.relation, false);
    lemma_told_of_joins(p, from.joins);
    lemma_told(against_table(p, from.relation, false), against_joins(p, from.joins));
}

proof fn lemma_told_of_froms(p: PolicyModel, froms: Seq<FromModel>)
    ensures
        froms_refusal(p, froms) == told(against_froms(p, froms)),
    decreases froms,
{
    if froms.len() > 0 {
        let rest = froms.subrange(1, froms.len() as int);
        lemma_told_of_from(p, froms[0]);
        lemma_told_of_froms(p, rest);
        lemma_told(against_from(p, froms[0]), against_froms(p, rest));
    }
}

proof fn lemma_told_of_select(p: PolicyModel, select: SelectModel)
    ensures
        select_refusal(p, select) == told(against_select(p, select)),
    decreases select,
{
    lemma_told_of_froms(p, select.from);
    lemma_told(
        where_so(select.into, "SELECT ... INTO is not allowed"@),
        against_froms(p, select.from),
    );
}

proof fn lemma_told_of_body(p: PolicyModel, body: BodyModel)
    ensures
        body_refusal(p, body) == told(against_body(p, body)),
    decreases body,
{
    match body {
        BodyModel::Select(select) => lemma_told_of_select(p, *select),
        BodyModel::Query(query) => lemma_told_of_query(p, *query),
        BodyModel::SetOperation { left, right } => {
            lemma_told_of_body(p, *left);
            lemma_told_of_body(p, *right);
            lemma_told(against_body(p, *left), against_body(p, *right));
        },
        _ => {},
    }
}

proof fn lemma_told_of_queries(p: PolicyModel, queries: Seq<QueryModel>)
    ensures
        queries_refusal(p, queries) == told(against_queries(p, queries)),
    decreases queries,
{
    if queries.len() > 0 {
        let rest = queries.subrange(1, queries.len() as int);
        lemma_told_of_query(p, queries[0]);
        lemma_told_of_queries(p, rest);
        lemma_told(against_query(p, queries[0]), against_queries(p, rest));
    }
}

proof fn lemma_told_of_query(p: PolicyModel, query: QueryModel)
    ensures
        query_refusal(p, query) == told(against_query(p, query)),
    decreases query,
{
    let locks = where_so(query.locks > 0, "SELECT ... FOR UPDATE/SHARE is not allowed"@);
    let with: Complaints = match query.with {
        Some(queries) => against_queries(p, queries),
        None => Seq::empty(),
    };
    if let Some(queries) = query.with {
        lemma_told_of_queries(p, queries);
    }
    lemma_told_of_body(p, query.body);
    lemma_told(locks, with);
    lemma_told(locks + with, against_body(p, query.body));
}

/// A query that does more than read is refused with the first thing that can be
/// said against it: its locks, then its WITH clause, then its body, each in the
/// order in which it is written.
pub proof fn law_the_first_thing_against_a_query_is_told(p: PolicyModel, query: QueryModel)
    ensures
        query_refusal(p, query) == told(against_query(p, query)),
{
    lemma_told_of_query(p, query);
}

/// So are the parts of it that are looked at on their own: arguments, relations,
/// entries of FROM, SELECTs and bodies.
pub proof fn law_the_first_thing_against_a_part_is_told(
    p: PolicyModel,
    name: NameModel,
    list: TableArgsModel,
    table: TableModel,
    lateral: bool,
    from: FromModel,
    select: SelectModel,
    body: BodyModel,
)
    ensures
        args_refusal(p, name, list.args) == told(against_args(p, name, list.args)),
        table_call_refusal(p, name, Some(list), lateral) == told(
            against_call(p, name, lateral, list.settings, list.args),
        ),
        table_call_refusal(p, name, None, lateral) == told(
            against_call(p, name, lateral, false, Seq::empty()),
        ),
        table_refusal(p, table, lateral) == told(against_table(p, table, lateral)),
        from_refusal(p, from) == told(against_from(p, from)),
        select_refusal(p, select) == told(against_select(p, select)),
        body_refusal(p, body) == told(against_body(p, body)),
{
    lemma_told_of_args(p, name, list.args);
    lemma_told_of_call(p, name, lateral, Some(list), list.settings, list.args);
    lemma_told_of_call(p, name, lateral, None, false, Seq::empty());
    lemma_told_of_table(p, table, lateral);
    lemma_told_of_from(p, from);
    lemma_told_of_select(p, select);
    lemma_told_of_body(p, body);
}

// ---------------------------------------------------------------------------
// Products
// ---------------------------------------------------------------------------

/// The products in a relation: those of a join in parentheses.
pub open spec fn products_in_table(p: PolicyModel, table: TableModel) -> Complaints
    decreases table,
{
    match table {
        TableModel::NestedJoin(from) => products_in_table(p, from.relation) + products_inside(
            p,
            from.joins,
        ),
        _ => Seq::empty(),
    }
}

/// The products among joins in parentheses: of each join those in its relation,
/// then itself.
pub open spec fn products_inside(p: PolicyModel, joins: Seq<JoinModel>) -> Complaints
    decreases joins,
{
    if joins.len() == 0 {
        Seq::empty()
    } else {
        product_inside(p, joins[0]) + products_inside(p, joins.subrange(1, joins.len() as int))
    }
}

/// The products of one join in parentheses.
pub open spec fn product_inside(p: PolicyModel, join: JoinModel) -> Complaints
    decreases join,
{
    products_in_table(p, join.relation) + where_so(
        multiplies(p, join),
        "Potential cartesian product detected inside nested join."@,
    )
}

/// The products among the joins of a SELECT.
pub open spec fn products_among(p: PolicyModel, joins: Seq<JoinModel>) -> Complaints
    decreases joins.len(),
{
    if joins.len() == 0 {
        Seq::empty()
    } else {
        products_in_table(p, joins[0].relation) + where_so(
            multiplies(p, joins[0]),
            cartesian_refused(joins[0].operator),
        ) + products_among(p, joins.subrange(1, joins.len() as int))
    }
}

/// The products in the entries of FROM.
pub open spec fn products_in_froms(p: PolicyModel, froms: Seq<FromModel>) -> Complaints
    decreases froms.len(),
{
    if froms.len() == 0 {
        Seq::empty()
    } else {
        products_in_table(p, froms[0].relation) + products_among(p, froms[0].joins)
            + products_in_froms(p, froms.subrange(1, froms.len() as int))
    }
}

/// The products of a body: those of its joins, then that of its entries of FROM;
/// of a set operation the left side first.
pub open spec fn products_of(p: PolicyModel, body: BodyModel) -> Complaints
    decreases body,
{
    match body {
        BodyModel::Select(select) => products_in_froms(p, select.from) + where_so(
            select.from.len() > 1,
            "Multiple tables in FROM clause without explicit JOIN. Use explicit JOIN syntax with ON clauses instead of comma-separated tables. Example: 'FROM a JOIN b ON a.id = b.a_id' instead of 'FROM a, b WHERE a.id = b.a_id'"@,
        ),
        BodyModel::SetOperation { left, right } => products_of(p, *left) + products_of(p, *right),
        _ => Seq::empty(),
    }
}

proof fn lemma_told_of_nested(p: PolicyModel, table: TableModel)
    ensures
        table_cartesian_refusal(p, table) == told(products_in_table(p, table)),
    decreases table,
{
    if let TableModel::NestedJoin(from) = table {
        lemma_told_of_nested(p, from.relation);
        lemma_told_of_nested_joins(p, from.joins);
        lemma_told(products_in_table(p, from.relation), products_inside(p, from.joins));
    }
}

proof fn lemma_told_of_nested_joins(p: PolicyModel, joins: Seq<JoinModel>)
    ensures
        nested_joins_refusal(p, joins) == told(products_inside(p, joins)),
    decreases joins,
{
    if joins.len() > 0 {
        let rest = joins.subrange(1, joins.len() as int);
        lemma_told_of_nested_join(p, joins[0]);
        lemma_told_of_nested_joins(p, rest);
        lemma_told(product_inside(p, joins[0]), products_inside(p, rest));
    }
}

proof fn lemma_told_of_nested_join(p: PolicyModel, join: JoinModel)
    ensures
        nested_join_refusal(p, join) == told(product_inside(p, join)),
    decreases join,
{
    lemma_told_of_nested(p, join.relation);
    law_products_are_what_multiplies(p, join);
    lemma_told(
        products_in_table(p, join.relation),
        where_so(
            multiplies(p, join),
            "Potential cartesian product detected inside nested join."@,
        ),
    );
}

proof fn lemma_told_of_select_joins(p: PolicyModel, joins: Seq<JoinModel>)
    ensures
        joins_cartesian_refusal(p, joins) == told(products_among(p, joins)),
    decreases joins.len(),
{
    if joins.len() > 0 {
        let rest = joins.subrange(1, joins.len() as int);
        assert(rest =~= joins.skip(1));
        lemma_told_of_nested(p, joins[0].relation);
        law_products_are_what_multiplies(p, joins[0]);
        lemma_told_of_select_joins(p, rest);
        let inner = products_in_table(p, joins[0].relation);
        let own = where_so(multiplies(p, joins[0]), cartesian_refused(joins[0].operator));
        lemma_told(inner, own);
        lemma_told(inner + own, products_among(p, rest));
        assert(join_cartesian_refusal(p, joins[0]) == told(inner + own));
    }
}

proof fn lemma_told_of_select_froms(p: PolicyModel, froms: Seq<FromModel>)
    ensures
        froms_cartesian_refusal(p, froms) == told(products_in_froms(p, froms)),
    decreases froms.len(),
{
    if froms.len() > 0 {
        let rest = froms.subrange(1, froms.len() as int);
        assert(rest =~= froms.skip(1));
        lemma_told_of_nested(p, froms[0].relation);
        lemma_told_of_select_joins(p, froms[0].joins);
        lemma_told_of_select_froms(p, rest);
        let inner = products_in_table(p, froms[0].relation);
        let joins = products_among(p, froms[0].joins);
        lemma_told(inner, joins);
        lemma_told(inner + joins, products_in_froms(p, rest));
        assert(from_cartesian_refusal(p, froms[0]) == told(inner + joins));
    }
}

/// A relation and a SELECT that multiply rows are refused with their first
/// product.
pub proof fn law_the_first_product_of_a_part_is_told(
    p: PolicyModel,
    table: TableModel,
    select: SelectModel,
)
    ensures
        table_cartesian_refusal(p, table) == told(products_in_table(p, table)),
        select_cartesian_refusal(p, select) == told(
            products_of(p, BodyModel::Select(Box::new(select))),
        ),
{
    lemma_told_of_nested(p, table);
    law_the_first_product_is_told(p, BodyModel::Select(Box::new(select)));
}

/// A body that multiplies rows is refused with its first product.
pub proof fn law_the_first_product_is_told(p: PolicyModel, body: BodyModel)
    ensures
        body_cartesian_refusal(p, body) == told(products_of(p, body)),
    decreases body,
{
    match body {
        BodyModel::Select(select) => {
            lemma_told_of_select_froms(p, select.from);
            let many = where_so(
                select.from.len() > 1,
                "Multiple tables in FROM clause without explicit JOIN. Use explicit JOIN syntax with ON clauses instead of comma-separated tables. Example: 'FROM a JOIN b ON a.id = b.a_id' instead of 'FROM a, b WHERE a.id = b.a_id'"@,
            );
            lemma_told(products_in_froms(p, select.from), many);
            assert(body_cartesian_refusal(p, body) == select_cartesian_refusal(p, *select));
        },
        BodyModel::SetOperation { left, right } => {
            law_the_first_product_is_told(p, *left);
            law_the_first_product_is_told(p, *right);
            lemma_told(products_of(p, *left), products_of(p, *right));
        },
        _ => {},
    }
}

// ---------------------------------------------------------------------------
// Statements
// ---------------------------------------------------------------------------

/// The queries that a walk meets, in the order in which it meets them: the
/// outermost, those of its WITH clause, those of its body, those of its other
/// clauses.
pub proof fn law_walking_order(walk: WalkModel, inner: WalkModel, queries: Seq<QueryModel>)
    ensures
        walk.body == WalkBodyModel::Nested(queries) ==> walked(walk) == seq![walk.query]
            + walk.in_with + queries + walk.in_clauses && nested(walk) == walk.in_with + queries
            + walk.in_clauses,
        walk.body == WalkBodyModel::Parenthesized(Box::new(inner)) ==> walked(walk) == seq![
            walk.query,
        ] + walk.in_with + walked(inner) + walk.in_clauses && nested(walk) == walk.in_with + nested(
            inner,
        ) + walk.in_clauses,
{
}

/// What is told of each query, where anything is, in the order of the queries.
pub open spec fn told_of_each(law: QueryLaw, queries: Seq<QueryModel>) -> Complaints
    decreases queries.len(),
{
    if queries.len() == 0 {
        Seq::empty()
    } else {
        told_of_each(law, queries.drop_last()) + (match law(queries.last()) {
            Some(reason) => seq![reason],
            None => Seq::empty(),
        })
    }
}

proof fn lemma_told_of_each(law: QueryLaw, queries: Seq<QueryModel>)
    ensures
        first_refusal(law, queries) == told(told_of_each(law, queries)),
    decreases queries.len(),
{
    if queries.len() > 0 {
        let front = queries.drop_last();
        lemma_told_of_each(law, front);
        lemma_first_then_last(law, queries);
        lemma_told(
            told_of_each(law, front),
            match law(queries.last()) {
                Some(reason) => seq![reason],
                None => Seq::empty(),
            },
        );
    }
}

/// The last query is asked last.
proof fn lemma_first_then_last(law: QueryLaw, queries: Seq<QueryModel>)
    requires
        queries.len() > 0,
    ensures
        first_refusal(law, queries) == or_else(
            first_refusal(law, queries.drop_last()),
            law(queries.last()),
        ),
    decreases queries.len(),
{
    if queries.len() == 1 {
        assert(queries.skip(1).len() == 0);
        assert(first_refusal(law, queries.skip(1)) is None);
    } else {
        lemma_first_then_last(law, queries.skip(1));
        assert(queries.skip(1).drop_last() =~= queries.drop_last().skip(1));
        assert(queries.skip(1).last() == queries.last());
        assert(queries.drop_last()[0] == queries[0]);
    }
}

/// What each of the gates tells of a query.
pub open spec fn tells(p: PolicyModel, query: QueryModel) -> (
    Option<Seq<char>>,
    Option<Seq<char>>,
    Option<Seq<char>>,
    Option<Seq<char>>,
    Option<Seq<char>>,
) {
    (
        told(against_query(p, query)),
        query_offset_refusal(p, query),
        if (query.order_by matches Some(n) && n >= 1) && query_limit_refusal(p, query) is Some {
            Some(
                "Nested queries with ORDER BY must include their own bounded LIMIT. An outer LIMIT does not bound inner sort work."@,
            )
        } else {
            None
        },
        if projects_rows(p, query.body) {
            Some(
                "Set-returning functions are not allowed in the SELECT list on this SQL surface; they can expand result cardinality without bound."@,
            )
        } else {
            None
        },
        told(products_of(p, query.body)),
    )
}

/// Each gate tells of a query what it tells of that query alone.
pub proof fn law_gates(p: PolicyModel, query: QueryModel)
    ensures
        read_only_law(p)(query) == tells(p, query).0,
        offset_law(p)(query) == tells(p, query).1,
        sort_law(p)(query) == tells(p, query).2,
        projection_law(p)(query) == tells(p, query).3,
        cartesian_law(p)(query) == tells(p, query).4,
{
    lemma_told_of_query(p, query);
    law_the_first_product_is_told(p, query.body);
}

/// What can be said against the work of a walk: of the outermost query its
/// bounds, of every query its OFFSET, of the nested ones their sorting, of every
/// query its columns, of every query its products.
pub open spec fn against_work(p: PolicyModel, walk: WalkModel) -> Complaints {
    (match query_limit_refusal(p, walk.query) {
        Some(reason) => seq![reason],
        None => Seq::empty(),
    }) + told_of_each(|q: QueryModel| tells(p, q).1, walked(walk)) + told_of_each(
        |q: QueryModel| tells(p, q).2,
        nested(walk),
    ) + told_of_each(|q: QueryModel| tells(p, q).3, walked(walk)) + told_of_each(
        |q: QueryModel| tells(p, q).4,
        walked(walk),
    )
}

/// Gates that tell the same tell the same of each query.
proof fn lemma_same_told(a: QueryLaw, b: QueryLaw, queries: Seq<QueryModel>)
    requires
        forall|q: QueryModel| #[trigger] a(q) == b(q),
    ensures
        told_of_each(a, queries) == told_of_each(b, queries),
    decreases queries.len(),
{
    if queries.len() > 0 {
        lemma_same_told(a, b, queries.drop_last());
        assert(a(queries.last()) == b(queries.last()));
    }
}

proof fn lemma_told_of_work(p: PolicyModel, walk: WalkModel)
    ensures
        work_refusal(p, walk) == told(against_work(p, walk)),
{
    let bounds: Complaints = match query_limit_refusal(p, walk.query) {
        Some(reason) => seq![reason],
        None => Seq::empty(),
    };
    let f1 = |q: QueryModel| tells(p, q).1;
    let f2 = |q: QueryModel| tells(p, q).2;
    let f3 = |q: QueryModel| tells(p, q).3;
    let f4 = |q: QueryModel| tells(p, q).4;
    assert forall|q: QueryModel| #[trigger] offset_law(p)(q) == f1(q) by {
        law_gates(p, q);
    }
    assert forall|q: QueryModel| #[trigger] sort_law(p)(q) == f2(q) by {
        law_gates(p, q);
    }
    assert forall|q: QueryModel| #[trigger] projection_law(p)(q) == f3(q) by {
        law_gates(p, q);
    }
    assert forall|q: QueryModel| #[trigger] cartesian_law(p)(q) == f4(q) by {
        law_gates(p, q);
    }
    lemma_same_told(offset_law(p), f1, walked(walk));
    lemma_same_told(sort_law(p), f2, nested(walk));
    lemma_same_told(projection_law(p), f3, walked(walk));
    lemma_same_told(cartesian_law(p), f4, walked(walk));
    lemma_told_of_each(offset_law(p), walked(walk));
    lemma_told_of_each(sort_law(p), nested(walk));
    lemma_told_of_each(projection_law(p), walked(walk));
    lemma_told_of_each(cartesian_law(p), walked(walk));
    let a = told_of_each(f1, walked(walk));
    let b = told_of_each(f2, nested(walk));
    let c = told_of_each(f3, walked(walk));
    let d = told_of_each(f4, walked(walk));
    lemma_told(bounds, a);
    lemma_told(bounds + a, b);
    lemma_told(bounds + a + b, c);
    lemma_told(bounds + a + b + c, d);
    assert(told(bounds) == query_limit_refusal(p, walk.query));
}

/// A label before what is told.
pub open spec fn with_label(label: Seq<char>, told: Option<Seq<char>>) -> Complaints {
    match told {
        Some(reason) => seq![label + reason],
        None => Seq::empty(),
    }
}

/// A query is refused with the first of: what makes it more than reading, with
/// the number of the statement; a missing alias; what its work lacks.
pub proof fn law_what_is_told_of_a_query(p: PolicyModel, index: nat, walk: WalkModel)
    ensures
        statement_refusal(p, index, StatementModel::Query(Box::new(walk))) == told(
            with_label(
                "Statement "@ + decimal(index + 1) + ": "@,
                told(told_of_each(|q: QueryModel| tells(p, q).0, walked(walk))),
            ) + where_so(
                p.require_aggregate_aliases && lacks_alias(walk.query),
                "Alias the aggregate: count() AS n."@,
            ) + against_work(p, walk),
        ),
{
    lemma_told_of_work(p, walk);
    lemma_told_of_reading(p, walk);
    let label = "Statement "@ + decimal(index + 1) + ": "@;
    let reading = with_label(
        label,
        told(told_of_each(|q: QueryModel| tells(p, q).0, walked(walk))),
    );
    let alias = where_so(
        p.require_aggregate_aliases && lacks_alias(walk.query),
        "Alias the aggregate: count() AS n."@,
    );
    lemma_told(reading, alias);
    lemma_told(reading + alias, against_work(p, walk));
}

proof fn lemma_told_of_reading(p: PolicyModel, walk: WalkModel)
    ensures
        first_refusal(read_only_law(p), walked(walk)) == told(
            told_of_each(|q: QueryModel| tells(p, q).0, walked(walk)),
        ),
{
    let f0 = |q: QueryModel| tells(p, q).0;
    assert forall|q: QueryModel| #[trigger] read_only_law(p)(q) == f0(q) by {
        law_gates(p, q);
    }
    lemma_same_told(read_only_law(p), f0, walked(walk));
    lemma_told_of_each(read_only_law(p), walked(walk));
}

/// An EXPLAIN is refused with the first of: that it executes; that it explains
/// no query; what makes the query more than reading; what its work lacks.
pub proof fn law_what_is_told_of_an_explain(
    p: PolicyModel,
    index: nat,
    statement: StatementModel,
    analyze: bool,
    options: Option<Seq<ExplainOptionModel>>,
)
    ensures
        ({
            let label = "Statement "@ + decimal(index + 1) + ": "@;
            let executes = analyze || (options matches Some(list) && exists|k: int|
                0 <= k < list.len() && would_execute(#[trigger] list[k]));
            statement_refusal(
                p,
                index,
                StatementModel::Explain { statement: Box::new(statement), analyze, options },
            ) == if executes {
                Some(
                    label
                        + "EXPLAIN ANALYZE is not allowed (it executes the query). Use EXPLAIN without ANALYZE."@,
                )
            } else {
                match statement {
                    StatementModel::Query(walk) => told(
                        with_label(
                            label + "EXPLAIN "@,
                            told(told_of_each(|q: QueryModel| tells(p, q).0, walked(*walk))),
                        ) + against_work(p, *walk),
                    ),
                    _ => Some(
                        label + "EXPLAIN can only be used with read-only queries. EXPLAIN "@
                            + kind_name(kind_of(statement)) + " is not allowed."@,
                    ),
                }
            }
        }),
{
    let label = "Statement "@ + decimal(index + 1) + ": "@;
    if let Some(list) = options {
        if options_execute(options) {
            let k = choose|k: int| 0 <= k < list.len() && option_executes(#[trigger] list[k]);
            assert(would_execute(list[k]));
        }
        if exists|k: int| 0 <= k < list.len() && would_execute(#[trigger] list[k]) {
            let k = choose|k: int| 0 <= k < list.len() && would_execute(#[trigger] list[k]);
            assert(option_executes(list[k]));
        }
    }
    if let StatementModel::Query(walk) = statement {
        lemma_told_of_work(p, *walk);
        lemma_told_of_reading(p, *walk);
        lemma_told(
            with_label(
                label + "EXPLAIN "@,
                told(told_of_each(|q: QueryModel| tells(p, q).0, walked(*walk))),
            ),
            against_work(p, *walk),
        );
    }
}

} // verus!
