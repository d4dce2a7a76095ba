//! Laws on reading: a query is read-only exactly if every part of it is, however
//! deep the part stands.

use vstd::prelude::*;

use crate::calls::{
    bounded_function, has_row_source, has_subquery, listed_lateral, names_regexp_split,
};
use crate::join_laws::{is_lateral_call, law_crossing, may_be_crossed};
use crate::laws::{
    arg_sound, args_sound, body_sound, from_sound, join_sound, lemma_query_sound, query_sound,
    select_sound, table_sound,
};
use crate::limit_laws::{
    ends_in, gives_one_value, is_call_of, law_expressions_are_searched_to_the_bottom, lists,
};
use crate::policy::PolicyModel;
use crate::relations::{
    arg_refusal, body_refusal, kind_name, query_refusal, safe_lateral_join, select_refusal,
    table_call_admitted, table_refusal,
};
use crate::text::{joined, lower};
use crate::tree::{
    ArgModel, BodyModel, ExprModel, FromModel, JoinModel, JoinOperatorModel, NameModel, QueryModel,
    SelectModel, StatementKind, TableArgsModel, TableModel,
};

verus! {

/// A part of a query: a query in it, the body of one, or a relation that is read,
/// and whether a CROSS JOIN brings it.
pub enum ReadPart {
    Query(QueryModel),
    Body(BodyModel),
    Relation(TableModel, bool),
}

/// The part stands in the relation.
pub open spec fn part_in_table(table: TableModel, crossed: bool, part: ReadPart) -> bool
    decreases table,
{
    part == ReadPart::Relation(table, crossed) || match table {
        TableModel::Derived(query) => part_in_query(*query, part),
        TableModel::NestedJoin(from) => part_in_from(*from, part),
        TableModel::Pivot(inner) => part_in_table(*inner, false, part),
        TableModel::Unpivot(inner) => part_in_table(*inner, false, part),
        TableModel::MatchRecognize(inner) => part_in_table(*inner, false, part),
        _ => false,
    }
}

/// The part stands in the relation that the join brings.
pub open spec fn part_in_join(join: JoinModel, part: ReadPart) -> bool
    decreases join,
{
    part_in_table(join.relation, join.operator == JoinOperatorModel::CrossJoin, part)
}

/// The part stands in the entry of FROM.
pub open spec fn part_in_from(from: FromModel, part: ReadPart) -> bool
    decreases from,
{
    part_in_table(from.relation, false, part) || exists|k: int|
        0 <= k < from.joins.len() && part_in_join(#[trigger] from.joins[k], part)
}

/// The part stands in the FROM of the SELECT.
pub open spec fn part_in_select(select: SelectModel, part: ReadPart) -> bool
    decreases select,
{
    exists|i: int| 0 <= i < select.from.len() && part_in_from(#[trigger] select.from[i], part)
}

/// The part is the body, or stands in it.
pub open spec fn part_in_body(body: BodyModel, part: ReadPart) -> bool
    decreases body,
{
    part == ReadPart::Body(body) || match body {
        BodyModel::Select(select) => part_in_select(*select, part),
        BodyModel::Query(query) => part_in_query(*query, part),
        BodyModel::SetOperation { left, right } => part_in_body(*left, part) || part_in_body(
            *right,
            part,
        ),
        _ => false,
    }
}

/// The part is the query, or stands in its WITH clause or its body.
pub open spec fn part_in_query(query: QueryModel, part: ReadPart) -> bool
    decreases query,
{
    ||| part == ReadPart::Query(query)
    ||| query.with matches Some(queries) && exists|i: int|
        0 <= i < queries.len() && part_in_query(#[trigger] queries[i], part)
    ||| part_in_body(query.body, part)
}

/// Every argument is an expression that gives one value.
pub open spec fn are_values(p: PolicyModel, args: Seq<ArgModel>) -> bool {
    forall|i: int|
        0 <= i < args.len() ==> (#[trigger] args[i] matches ArgModel::Expr(e) && gives_one_value(
            p,
            e,
        ))
}

/// A call of that name may be read: the policy lists it as a table function, or
/// it may be crossed and is.
pub open spec fn may_be_read(
    p: PolicyModel,
    name: NameModel,
    table: TableModel,
    crossed: bool,
) -> bool {
    ||| lists(p.bounded_table_functions, name)
    ||| crossed && is_lateral_call(table, name) && (ends_in(name, "regexp_split_to_table"@)
        || lists(p.safe_lateral_functions, name))
}

/// The part by itself only reads: the query locks nothing, the body changes
/// nothing and selects into nothing, and the relation is a plain table, or a call
/// that may be read, with values for arguments and no settings.
pub open spec fn only_reads(p: PolicyModel, part: ReadPart) -> bool {
    match part {
        ReadPart::Query(query) => query.locks == 0,
        ReadPart::Body(body) => !(body is Insert) && !(body is Update) && (
        body matches BodyModel::Select(select) ==> !select.into),
        ReadPart::Relation(table, crossed) => match table {
            TableModel::Table { name, args } => match args {
                None => true,
                Some(list) => may_be_read(p, name, table, crossed) && !list.settings && are_values(
                    p,
                    list.args,
                ),
            },
            TableModel::Function { name, arguments, .. } => may_be_read(p, name, table, crossed)
                && are_values(p, arguments),
            TableModel::TableFunction | TableModel::Unnest | TableModel::JsonTable => false,
            TableModel::Derived(_)
            | TableModel::NestedJoin(_)
            | TableModel::Pivot(_)
            | TableModel::Unpivot(_)
            | TableModel::MatchRecognize(_) => true,
        },
    }
}

/// Arguments are sound exactly if they are values.
proof fn lemma_values(p: PolicyModel, args: Seq<ArgModel>)
    ensures
        args_sound(p, args) <==> are_values(p, args),
{
    assert forall|i: int| 0 <= i < args.len() implies arg_sound(p, #[trigger] args[i]) == (
    args[i] matches ArgModel::Expr(e) && gives_one_value(p, e)) by {
        if let ArgModel::Expr(e) = args[i] {
            law_expressions_are_searched_to_the_bottom(p, e);
        }
    }
    if are_values(p, args) {
        assert forall|i: int| 0 <= i < args.len() implies arg_sound(p, #[trigger] args[i]) by {}
    }
    if args_sound(p, args) {
        assert forall|i: int| 0 <= i < args.len() implies (
        #[trigger] args[i] matches ArgModel::Expr(e) && gives_one_value(p, e)) by {
            assert(arg_sound(p, args[i]));
        }
    }
}

/// Names are listed by their dotted form, and `regexp_split_to_table` is known by
/// the last part of its name.
pub proof fn law_listed_names(p: PolicyModel, name: NameModel)
    ensures
        bounded_function(p, name) <==> lists(p.bounded_table_functions, name),
        listed_lateral(p, name) <==> lists(p.safe_lateral_functions, name),
        names_regexp_split(name) <==> ends_in(name, "regexp_split_to_table"@),
{
    let dotted = joined(name.parts.map_values(|part: Seq<char>| lower(part)), "."@);
    let a = p.bounded_table_functions;
    let b = p.safe_lateral_functions;
    if a.contains(dotted) {
        let j = choose|j: int| 0 <= j < a.len() && a[j] == dotted;
        assert(a[j] == dotted);
    }
    if b.contains(dotted) {
        let j = choose|j: int| 0 <= j < b.len() && b[j] == dotted;
        assert(b[j] == dotted);
    }
    if name.parts.len() > 0 {
        assert(name.parts.last() == name.parts[name.parts.len() - 1]);
    }
}

/// A relation by itself only reads exactly if it is sound.
proof fn lemma_relation(p: PolicyModel, table: TableModel, crossed: bool, lateral: bool)
    requires
        lateral == (crossed && may_be_crossed(p, table)),
        !(table is Derived) && !(table is NestedJoin) && !(table is Pivot) && !(table is Unpivot)
            && !(table is MatchRecognize),
    ensures
        table_sound(p, table, lateral) <==> only_reads(p, ReadPart::Relation(table, crossed)),
{
    match table {
        TableModel::Table { name, args } => {
            law_listed_names(p, name);
            if let Some(list) = args {
                lemma_values(p, list.args);
                assert(is_lateral_call(table, name));
                assert(forall|n: NameModel| #[trigger] is_lateral_call(table, n) ==> n == name);
            }
        },
        TableModel::Function { name, arguments, lateral: said, .. } => {
            law_listed_names(p, name);
            lemma_values(p, arguments);
            assert(forall|n: NameModel| #[trigger] is_lateral_call(table, n) ==> n == name);
            if said {
                assert(is_lateral_call(table, name));
            }
        },
        _ => {},
    }
}

proof fn lemma_table_parts(p: PolicyModel, table: TableModel, crossed: bool, lateral: bool)
    requires
        lateral == (crossed && may_be_crossed(p, table)),
    ensures
        table_sound(p, table, lateral) <==> forall|part: ReadPart| #[trigger]
            part_in_table(table, crossed, part) ==> only_reads(p, part),
    decreases table,
{
    assert(part_in_table(table, crossed, ReadPart::Relation(table, crossed)));
    match table {
        TableModel::Derived(query) => {
            lemma_query_parts(p, *query);
            assert(table_sound(p, table, lateral) == query_sound(p, *query));
            if query_sound(p, *query) {
                assert forall|part: ReadPart| #[trigger]
                    part_in_table(table, crossed, part) implies only_reads(p, part) by {
                    if part != ReadPart::Relation(table, crossed) {
                        assert(part_in_query(*query, part));
                    }
                }
            }
            if forall|part: ReadPart| #[trigger]
                part_in_table(table, crossed, part) ==> only_reads(p, part) {
                assert forall|part: ReadPart| #[trigger]
                    part_in_query(*query, part) implies only_reads(p, part) by {
                    assert(part_in_table(table, crossed, part));
                }
            }
        },
        TableModel::NestedJoin(from) => {
            lemma_from_parts(p, *from);
            assert(table_sound(p, table, lateral) == from_sound(p, *from));
            if from_sound(p, *from) {
                assert forall|part: ReadPart| #[trigger]
                    part_in_table(table, crossed, part) implies only_reads(p, part) by {
                    if part != ReadPart::Relation(table, crossed) {
                        assert(part_in_from(*from, part));
                    }
                }
            }
            if forall|part: ReadPart| #[trigger]
                part_in_table(table, crossed, part) ==> only_reads(p, part) {
                assert forall|part: ReadPart| #[trigger] part_in_from(*from, part) implies only_reads(
                    p,
                    part,
                ) by {
                    assert(part_in_table(table, crossed, part));
                }
            }
        },
        TableModel::Pivot(inner) | TableModel::Unpivot(inner) | TableModel::MatchRecognize(inner) => {
            lemma_table_parts(p, *inner, false, false);
            assert(table_sound(p, table, lateral) == table_sound(p, *inner, false));
            if table_sound(p, *inner, false) {
                assert forall|part: ReadPart| #[trigger]
                    part_in_table(table, crossed, part) implies only_reads(p, part) by {
                    if part != ReadPart::Relation(table, crossed) {
                        assert(part_in_table(*inner, false, part));
                    }
                }
            }
            if forall|part: ReadPart| #[trigger]
                part_in_table(table, crossed, part) ==> only_reads(p, part) {
                assert forall|part: ReadPart| #[trigger]
                    part_in_table(*inner, false, part) implies only_reads(p, part) by {
                    assert(part_in_table(table, crossed, part));
                }
            }
        },
        _ => {
            lemma_relation(p, table, crossed, lateral);
        },
    }
}

proof fn lemma_join_parts(p: PolicyModel, join: JoinModel)
    ensures
        join_sound(p, join) <==> forall|part: ReadPart| #[trigger]
            part_in_join(join, part) ==> only_reads(p, part),
    decreases join,
{
    law_crossing(p, join);
    let crossed = join.operator == JoinOperatorModel::CrossJoin;
    lemma_table_parts(p, join.relation, crossed, safe_lateral_join(p, join));
    assert forall|part: ReadPart| #[trigger] part_in_join(join, part) == part_in_table(
        join.relation,
        crossed,
        part,
    ) by {}
    if forall|part: ReadPart| #[trigger] part_in_join(join, part) ==> only_reads(p, part) {
        assert forall|part: ReadPart| #[trigger]
            part_in_table(join.relation, crossed, part) implies only_reads(p, part) by {
            assert(part_in_join(join, part));
        }
    }
}

proof fn lemma_from_parts(p: PolicyModel, from: FromModel)
    ensures
        from_sound(p, from) <==> forall|part: ReadPart| #[trigger]
            part_in_from(from, part) ==> only_reads(p, part),
    decreases from,
{
    lemma_table_parts(p, from.relation, false, false);
    assert forall|k: int| 0 <= k < from.joins.len() implies (join_sound(p, #[trigger] from.joins[k])
        <==> forall|part: ReadPart| #[trigger]
        part_in_join(from.joins[k], part) ==> only_reads(p, part)) by {
        assert(decreases_to!(from => from.joins));
        assert(decreases_to!(from.joins => from.joins[k]));
        lemma_join_parts(p, from.joins[k]);
    }
    if from_sound(p, from) {
        assert forall|part: ReadPart| #[trigger] part_in_from(from, part) implies only_reads(
            p,
            part,
        ) by {
            if !part_in_table(from.relation, false, part) {
                let k = choose|k: int|
                    0 <= k < from.joins.len() && part_in_join(#[trigger] from.joins[k], part);
                assert(join_sound(p, from.joins[k]));
            }
        }
    }
    if forall|part: ReadPart| #[trigger] part_in_from(from, part) ==> only_reads(p, part) {
        assert forall|part: ReadPart| #[trigger]
            part_in_table(from.relation, false, part) implies only_reads(p, part) by {
            assert(part_in_from(from, part));
        }
        assert forall|k: int| 0 <= k < from.joins.len() implies join_sound(
            p,
            #[trigger] from.joins[k],
        ) by {
            assert forall|part: ReadPart| #[trigger]
                part_in_join(from.joins[k], part) implies only_reads(p, part) by {
                assert(part_in_from(from, part));
            }
        }
    }
}

proof fn lemma_select_parts(p: PolicyModel, select: SelectModel)
    ensures
        select_sound(p, select) <==> !select.into && forall|part: ReadPart| #[trigger]
            part_in_select(select, part) ==> only_reads(p, part),
    decreases select,
{
    assert forall|i: int| 0 <= i < select.from.len() implies (from_sound(
        p,
        #[trigger] select.from[i],
    ) <==> forall|part: ReadPart| #[trigger]
        part_in_from(select.from[i], part) ==> only_reads(p, part)) by {
        assert(decreases_to!(select => select.from));
        assert(decreases_to!(select.from => select.from[i]));
        lemma_from_parts(p, select.from[i]);
    }
    if select_sound(p, select) {
        assert forall|part: ReadPart| #[trigger] part_in_select(select, part) implies only_reads(
            p,
            part,
        ) by {
            let i = choose|i: int|
                0 <= i < select.from.len() && part_in_from(#[trigger] select.from[i], part);
            assert(from_sound(p, select.from[i]));
        }
    }
    if !select.into && forall|part: ReadPart| #[trigger]
        part_in_select(select, part) ==> only_reads(p, part) {
        assert forall|i: int| 0 <= i < select.from.len() implies from_sound(
            p,
            #[trigger] select.from[i],
        ) by {
            assert forall|part: ReadPart| #[trigger]
                part_in_from(select.from[i], part) implies only_reads(p, part) by {
                assert(part_in_select(select, part));
            }
        }
    }
}

proof fn lemma_body_parts(p: PolicyModel, body: BodyModel)
    ensures
        body_sound(p, body) <==> forall|part: ReadPart| #[trigger]
            part_in_body(body, part) ==> only_reads(p, part),
    decreases body,
{
    assert(part_in_body(body, ReadPart::Body(body)));
    let all = forall|part: ReadPart| #[trigger]
        part_in_body(body, part) ==> only_reads(p, part);
    match body {
        BodyModel::Select(select) => {
            lemma_select_parts(p, *select);
            assert(body_sound(p, body) == select_sound(p, *select));
            if select_sound(p, *select) {
                assert forall|part: ReadPart| #[trigger]
                    part_in_body(body, part) implies only_reads(p, part) by {
                    if part != ReadPart::Body(body) {
                        assert(part_in_select(*select, part));
                    }
                }
            }
            if all {
                assert forall|part: ReadPart| #[trigger]
                    part_in_select(*select, part) implies only_reads(p, part) by {
                    assert(part_in_body(body, part));
                }
            }
        },
        BodyModel::Query(query) => {
            lemma_query_parts(p, *query);
            assert(body_sound(p, body) == query_sound(p, *query));
            if query_sound(p, *query) {
                assert forall|part: ReadPart| #[trigger]
                    part_in_body(body, part) implies only_reads(p, part) by {
                    if part != ReadPart::Body(body) {
                        assert(part_in_query(*query, part));
                    }
                }
            }
            if all {
                assert forall|part: ReadPart| #[trigger]
                    part_in_query(*query, part) implies only_reads(p, part) by {
                    assert(part_in_body(body, part));
                }
            }
        },
        BodyModel::SetOperation { left, right } => {
            lemma_body_parts(p, *left);
            lemma_body_parts(p, *right);
            if all {
                assert forall|part: ReadPart| #[trigger]
                    part_in_body(*left, part) implies only_reads(p, part) by {
                    assert(part_in_body(body, part));
                }
                assert forall|part: ReadPart| #[trigger]
                    part_in_body(*right, part) implies only_reads(p, part) by {
                    assert(part_in_body(body, part));
                }
            }
            if body_sound(p, body) {
                assert forall|part: ReadPart| #[trigger]
                    part_in_body(body, part) implies only_reads(p, part) by {
                    if part != ReadPart::Body(body) && !part_in_body(*left, part) {
                        assert(part_in_body(*right, part));
                    }
                }
            }
        },
        _ => {},
    }
}

proof fn lemma_query_parts(p: PolicyModel, query: QueryModel)
    ensures
        query_sound(p, query) <==> forall|part: ReadPart| #[trigger]
            part_in_query(query, part) ==> only_reads(p, part),
    decreases query,
{
    assert(part_in_query(query, ReadPart::Query(query)));
    lemma_body_parts(p, query.body);
    if let Some(queries) = query.with {
        assert forall|i: int| 0 <= i < queries.len() implies (query_sound(p, #[trigger] queries[i])
            <==> forall|part: ReadPart| #[trigger]
            part_in_query(queries[i], part) ==> only_reads(p, part)) by {
            assert(decreases_to!(query => query.with));
            assert(decreases_to!(query.with => query.with->0));
            assert(decreases_to!(queries => queries[i]));
            lemma_query_parts(p, queries[i]);
        }
    }
    if query_sound(p, query) {
        assert forall|part: ReadPart| #[trigger] part_in_query(query, part) implies only_reads(
            p,
            part,
        ) by {
            if part != ReadPart::Query(query) && !part_in_body(query.body, part) {
                let queries = query.with->0;
                let i = choose|i: int|
                    0 <= i < queries.len() && part_in_query(#[trigger] queries[i], part);
                assert(query_sound(p, queries[i]));
            }
        }
    }
    if forall|part: ReadPart| #[trigger] part_in_query(query, part) ==> only_reads(p, part) {
        assert forall|part: ReadPart| #[trigger] part_in_body(query.body, part) implies only_reads(
            p,
            part,
        ) by {
            assert(part_in_query(query, part));
        }
        if let Some(queries) = query.with {
            assert forall|i: int| 0 <= i < queries.len() implies query_sound(
                p,
                #[trigger] queries[i],
            ) by {
                assert forall|part: ReadPart| #[trigger]
                    part_in_query(queries[i], part) implies only_reads(p, part) by {
                    assert(part_in_query(query, part));
                }
            }
        }
    }
}

/// The read-only gate passes a query exactly if every part of it only reads: the
/// query itself, those in its WITH clause, in parentheses and in FROM, the
/// operands of its set operations, and every relation that any of them reads,
/// through joins and pivots.
pub proof fn law_queries_are_read_only_exactly(p: PolicyModel, query: QueryModel)
    ensures
        query_refusal(p, query) is None <==> forall|part: ReadPart| #[trigger]
            part_in_query(query, part) ==> only_reads(p, part),
{
    lemma_query_sound(p, query);
    lemma_query_parts(p, query);
}

/// What is said of a query that does not only read: of locks before anything
/// else, then of INTO, of a change, of a relation by its name, and of the first
/// argument that is no value.
pub proof fn law_read_only_messages(
    p: PolicyModel,
    query: QueryModel,
    select: SelectModel,
    kind: StatementKind,
    name: NameModel,
    table: TableModel,
    lateral: bool,
)
    ensures
        query.locks > 0 ==> query_refusal(p, query) == Some(
            "SELECT ... FOR UPDATE/SHARE is not allowed"@,
        ),
        select.into ==> select_refusal(p, select) == Some("SELECT ... INTO is not allowed"@),
        body_refusal(p, BodyModel::Insert(kind)) == Some(
            "data-modifying queries are not allowed (found "@ + kind_name(kind)
                + " inside a query)"@,
        ),
        body_refusal(p, BodyModel::Update(kind)) == Some(
            "data-modifying queries are not allowed (found "@ + kind_name(kind)
                + " inside a query)"@,
        ),
        is_call_of(table, name) && !table_call_admitted(p, name, lateral) ==> table_refusal(
            p,
            table,
            lateral,
        ) == Some("Table-valued function `"@ + name.text + "` is not allowed on this SQL surface."@),
        table_refusal(p, TableModel::TableFunction, lateral) == Some(
            "Table-valued function `"@ + "TABLE(...)"@ + "` is not allowed on this SQL surface."@,
        ),
        table_refusal(p, TableModel::Unnest, lateral) == Some(
            "Table-valued function `"@ + "UNNEST"@ + "` is not allowed on this SQL surface."@,
        ),
        table_refusal(p, TableModel::JsonTable, lateral) == Some(
            "Table-valued function `"@ + "JSON_TABLE"@ + "` is not allowed on this SQL surface."@,
        ),
        arg_refusal(p, name, ArgModel::Wildcard) == Some(
            "Table-valued function `"@ + name.text
                + "` arguments may not use wildcard arguments on this SQL surface."@,
        ),
        arg_refusal(p, name, ArgModel::QualifiedWildcard) == arg_refusal(
            p,
            name,
            ArgModel::Wildcard,
        ),
{
}

/// What is said of an argument that is no value, and of settings.
pub proof fn law_argument_messages(
    p: PolicyModel,
    name: NameModel,
    e: ExprModel,
    list: TableArgsModel,
)
    ensures
        has_subquery(e) ==> arg_refusal(p, name, ArgModel::Expr(e)) == Some(
            "Table-valued function `"@ + name.text
                + "` arguments may not contain subqueries on this SQL surface."@,
        ),
        !has_subquery(e) && has_row_source(p, e) ==> arg_refusal(
            p,
            name,
            ArgModel::Expr(e),
        ) == Some(
            "Table-valued function `"@ + name.text
                + "` arguments may not contain set-returning functions on this SQL surface."@,
        ),
        list.settings && table_call_admitted(p, name, false) ==> table_refusal(
            p,
            TableModel::Table { name, args: Some(list) },
            false,
        ) == Some(
            "Table-valued function `"@ + name.text
                + "` settings are not allowed on this SQL surface."@,
        ),
{
}

} // verus!
