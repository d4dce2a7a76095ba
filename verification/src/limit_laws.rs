//! Laws on LIMIT and OFFSET: when a query's rows are bounded, and what is said of
//! one whose rows are not.

use vstd::prelude::*;

use crate::bounds::{
    computes_one_row, counts, counts_all, is_count, is_scalar, limit_refusal, offset_refusal,
    query_limit_refusal, query_offset_refusal, reads_bounded_function,
};
use crate::calls::{
    bounded_function, dotted_lower, has_row_source, has_subquery, is_row_source, is_subquery,
    last_part_is, listed_set_returning, names_set_returning, returns_rows, SET_RETURNING_FUNCTIONS,
};
use crate::policy::PolicyModel;
use crate::text::{decimal, holds_text, joined, lower, number_of, same_ignoring_case};
use crate::tree::{
    ArgumentsKind, BodyModel, BoundModel, CallModel, ExprModel, LiteralModel, NameModel, QueryModel,
    SelectItemModel, SelectModel, TableModel, VisitedModel,
};

verus! {

/// The last part of the name is the word, in any case.
pub open spec fn ends_in(name: NameModel, word: Seq<char>) -> bool {
    name.parts.len() > 0 && same_ignoring_case(name.parts[name.parts.len() - 1], word)
}

/// The list holds the name: its parts in lower case with dots between them.
pub open spec fn lists(list: Seq<Seq<char>>, name: NameModel) -> bool {
    exists|j: int|
        0 <= j < list.len() && #[trigger] list[j] == joined(
            name.parts.map_values(|part: Seq<char>| lower(part)),
            "."@,
        )
}

/// A call of that name can give back more rows than one: PostgreSQL knows it as
/// set-returning, or the policy lists it as such or as a table function.
pub open spec fn gives_rows(p: PolicyModel, name: NameModel) -> bool {
    ||| ends_in(name, "generate_series"@)
    ||| ends_in(name, "generate_subscripts"@)
    ||| ends_in(name, "unnest"@)
    ||| ends_in(name, "regexp_matches"@)
    ||| ends_in(name, "regexp_split_to_table"@)
    ||| ends_in(name, "json_each"@)
    ||| ends_in(name, "json_each_text"@)
    ||| ends_in(name, "json_object_keys"@)
    ||| ends_in(name, "json_array_elements"@)
    ||| ends_in(name, "json_array_elements_text"@)
    ||| ends_in(name, "jsonb_each"@)
    ||| ends_in(name, "jsonb_each_text"@)
    ||| ends_in(name, "jsonb_object_keys"@)
    ||| ends_in(name, "jsonb_array_elements"@)
    ||| ends_in(name, "jsonb_array_elements_text"@)
    ||| lists(p.bounded_table_functions, name)
    ||| lists(p.set_returning_functions, name)
}

/// Which names PostgreSQL knows as set-returning, and which the policy adds.
pub proof fn law_set_returning_names(p: PolicyModel, name: NameModel)
    ensures
        names_set_returning(name) <==> (ends_in(name, "generate_series"@) || ends_in(
            name,
            "generate_subscripts"@,
        ) || ends_in(name, "unnest"@) || ends_in(name, "regexp_matches"@) || ends_in(
            name,
            "regexp_split_to_table"@,
        ) || ends_in(name, "json_each"@) || ends_in(name, "json_each_text"@) || ends_in(
            name,
            "json_object_keys"@,
        ) || ends_in(name, "json_array_elements"@) || ends_in(name, "json_array_elements_text"@)
            || ends_in(name, "jsonb_each"@) || ends_in(name, "jsonb_each_text"@) || ends_in(
            name,
            "jsonb_object_keys"@,
        ) || ends_in(name, "jsonb_array_elements"@) || ends_in(
            name,
            "jsonb_array_elements_text"@,
        )),
        listed_set_returning(p, name) <==> lists(p.set_returning_functions, name),
{
    let none = PolicyModel {
        bounded_table_functions: Seq::empty(),
        set_returning_functions: Seq::empty(),
        ..p
    };
    law_row_givers(none, name);
    law_listing(p.set_returning_functions, name);
    assert(!bounded_function(none, name));
    assert(!listed_set_returning(none, name));
}

/// Which names give rows.
pub proof fn law_row_givers(p: PolicyModel, name: NameModel)
    ensures
        returns_rows(p, name) <==> gives_rows(p, name),
{
    let a = SET_RETURNING_FUNCTIONS@;
    assert(a[0]@ == "generate_series"@);
    assert(a[1]@ == "generate_subscripts"@);
    assert(a[2]@ == "unnest"@);
    assert(a[3]@ == "regexp_matches"@);
    assert(a[4]@ == "regexp_split_to_table"@);
    assert(a[5]@ == "json_each"@);
    assert(a[6]@ == "json_each_text"@);
    assert(a[7]@ == "json_object_keys"@);
    assert(a[8]@ == "json_array_elements"@);
    assert(a[9]@ == "json_array_elements_text"@);
    assert(a[10]@ == "jsonb_each"@);
    assert(a[11]@ == "jsonb_each_text"@);
    assert(a[12]@ == "jsonb_object_keys"@);
    assert(a[13]@ == "jsonb_array_elements"@);
    assert(a[14]@ == "jsonb_array_elements_text"@);
    assert(a.len() == 15);
    let k = name.parts.len() - 1;
    if name.parts.len() > 0 {
        assert(name.parts.last() == name.parts[k]);
    }
    if returns_rows(p, name) && names_set_returning(name) {
        let i = choose|i: int|
            0 <= i < SET_RETURNING_FUNCTIONS@.len() && last_part_is(
                name,
                (#[trigger] SET_RETURNING_FUNCTIONS@[i])@,
            );
        assert(ends_in(name, a[i]@));
    }
    law_listing(p.bounded_table_functions, name);
    law_listing(p.set_returning_functions, name);
    if lists(p.bounded_table_functions, name) {
        assert(bounded_function(p, name));
    }
    if lists(p.set_returning_functions, name) {
        assert(listed_set_returning(p, name));
    }
    if gives_rows(p, name) && !lists(p.bounded_table_functions, name) && !lists(
        p.set_returning_functions,
        name,
    ) {
        assert(exists|i: int| 0 <= i < 15 && ends_in(name, (#[trigger] a[i])@));
        let i = choose|i: int| 0 <= i < 15 && ends_in(name, (#[trigger] a[i])@);
        assert(last_part_is(name, SET_RETURNING_FUNCTIONS@[i]@));
    }
}

/// A list names a function by its dotted name in lower case.
pub proof fn law_listing(list: Seq<Seq<char>>, name: NameModel)
    ensures
        lists(list, name) <==> list.contains(
            joined(name.parts.map_values(|part: Seq<char>| lower(part)), "."@),
        ),
{
    let dotted = joined(name.parts.map_values(|part: Seq<char>| lower(part)), "."@);
    if list.contains(dotted) {
        let j = choose|j: int| 0 <= j < list.len() && list[j] == dotted;
        assert(list[j] == dotted);
    }
}

/// The visited expression is a subquery, compares with one, or is a call that
/// takes one bare.
pub open spec fn carries_query(e: VisitedModel) -> bool {
    ||| e == VisitedModel::Subquery
    ||| e == VisitedModel::Exists
    ||| e == VisitedModel::InSubquery
    ||| e == VisitedModel::AnyOp
    ||| e == VisitedModel::AllOp
    ||| e matches VisitedModel::Call(call) && (call.parameters == ArgumentsKind::Subquery
        || call.arguments == ArgumentsKind::Subquery)
}

/// Nothing in the expression carries a query or gives rows.
pub open spec fn gives_one_value(p: PolicyModel, e: ExprModel) -> bool {
    forall|i: int|
        0 <= i < e.visited.len() ==> !carries_query(#[trigger] e.visited[i]) && !(
        e.visited[i] matches VisitedModel::Call(call) && gives_rows(p, call.name))
}

/// An expression carries a subquery, or gives rows, exactly if one of the
/// expressions in it does.
pub proof fn law_expressions_are_searched_to_the_bottom(p: PolicyModel, e: ExprModel)
    ensures
        has_subquery(e) <==> exists|i: int|
            0 <= i < e.visited.len() && carries_query(#[trigger] e.visited[i]),
        has_row_source(p, e) <==> exists|i: int|
            0 <= i < e.visited.len() && (#[trigger] e.visited[i] matches VisitedModel::Call(call)
                && gives_rows(p, call.name)),
        gives_one_value(p, e) <==> !has_subquery(e) && !has_row_source(p, e),
{
    assert forall|i: int| 0 <= i < e.visited.len() implies is_subquery(#[trigger] e.visited[i])
        == carries_query(e.visited[i]) && is_row_source(p, e.visited[i]) == (
    e.visited[i] matches VisitedModel::Call(call) && gives_rows(p, call.name)) by {
        if let VisitedModel::Call(call) = e.visited[i] {
            law_row_givers(p, call.name);
        }
    }
    if has_subquery(e) {
        let i = choose|i: int| 0 <= i < e.visited.len() && is_subquery(#[trigger] e.visited[i]);
        assert(carries_query(e.visited[i]));
    }
    if has_row_source(p, e) {
        let i = choose|i: int|
            0 <= i < e.visited.len() && is_row_source(p, #[trigger] e.visited[i]);
        assert(e.visited[i] matches VisitedModel::Call(call) && gives_rows(p, call.name));
    }
    if !gives_one_value(p, e) {
        let i = choose|i: int|
            0 <= i < e.visited.len() && !(!carries_query(#[trigger] e.visited[i]) && !(
            e.visited[i] matches VisitedModel::Call(call) && gives_rows(p, call.name)));
        assert(is_subquery(e.visited[i]) || is_row_source(p, e.visited[i]));
    }
}

/// The operand is a number that is no larger than the cap.
pub open spec fn is_number_up_to(bound: BoundModel, cap: u64) -> bool {
    bound.literal matches LiteralModel::Number(n) && (number_of(n) matches Some(v) && v <= cap)
}

/// The query is a single SELECT without WITH, OFFSET and FETCH.
pub open spec fn is_plain_select(query: QueryModel, select: SelectModel) -> bool {
    &&& query.with is None
    &&& query.offset is None
    &&& query.fetch == false
    &&& query.body == BodyModel::Select(Box::new(select))
}

/// The query reads exactly one relation, a call of a listed table function.
pub open spec fn reads_one_listed_function(p: PolicyModel, query: QueryModel) -> bool {
    exists|select: SelectModel, name: NameModel| #[trigger]
        is_plain_select(query, select) && select.from.len() == 1 && select.from[0].joins.len() == 0
            && is_call_of(select.from[0].relation, name) && #[trigger] lists(
            p.bounded_table_functions,
            name,
        )
}

/// The relation is a call of the function of that name.
pub open spec fn is_call_of(table: TableModel, name: NameModel) -> bool {
    ||| table matches TableModel::Table { name: n, args } && n == name && args is Some
    ||| table matches TableModel::Function { name: n, .. } && n == name
}

/// The item is an expression, with or without an alias.
pub open spec fn is_column(item: SelectItemModel, e: ExprModel) -> bool {
    item == SelectItemModel::Unnamed(e) || item == SelectItemModel::Aliased(e)
}

/// The whole expression is a call.
pub open spec fn is_a_call(e: ExprModel, call: CallModel) -> bool {
    e.visited.len() > 0 && e.visited[0] == VisitedModel::Call(call)
}

/// The printed query, in lower case, groups, filters groups or opens a window.
pub open spec fn prints_groups(query: QueryModel, group: Seq<char>, having: Seq<char>) -> bool {
    ||| holds_text(lower(query.text), group)
    ||| holds_text(lower(query.text), having)
    ||| holds_text(lower(query.text), " over("@)
    ||| holds_text(lower(query.text), " over ("@)
}

/// The one output column of the query is a call that counts: its name is `count`
/// in any case, and no window goes with it.
pub open spec fn counts_rows(query: QueryModel) -> bool {
    exists|select: SelectModel, e: ExprModel, call: CallModel|
        {
            &&& #[trigger] is_plain_select(query, select)
            &&& select.projection.len() == 1
            &&& #[trigger] is_column(select.projection[0], e)
            &&& #[trigger] is_a_call(e, call)
            &&& call.over == false
            &&& same_ignoring_case(call.name.text, "count"@)
            &&& !prints_groups(query, "group by"@, "having"@)
        }
}

/// The item is an expression, with or without an alias, that gives one value.
pub open spec fn is_one_value(p: PolicyModel, item: SelectItemModel) -> bool {
    match item {
        SelectItemModel::Unnamed(e) | SelectItemModel::Aliased(e) => gives_one_value(p, e),
        SelectItemModel::QualifiedWildcard | SelectItemModel::Wildcard => false,
    }
}

/// The query reads nothing and computes one row of single values.
pub open spec fn computes_values(p: PolicyModel, query: QueryModel) -> bool {
    exists|select: SelectModel|
        {
            &&& #[trigger] is_plain_select(query, select)
            &&& select.from.len() == 0
            &&& select.projection.len() > 0
            &&& !prints_groups(query, " group by "@, " having "@)
            &&& forall|i: int|
                0 <= i < select.projection.len() ==> is_one_value(p, #[trigger] select.projection[i])
        }
}

/// An expression counts rows exactly if it is a call named `count`, in any case,
/// without a window; a column is one value exactly if it is an expression and
/// nothing in it carries a query or gives rows.
pub proof fn law_counting_and_single_values(p: PolicyModel, e: ExprModel, item: SelectItemModel)
    ensures
        is_count(e) <==> (e.visited.len() > 0 && (e.visited[0] matches VisitedModel::Call(call)
            && !call.over && lower(call.name.text) == lower("count"@))),
        counts(SelectItemModel::Unnamed(e)) == is_count(e),
        counts(SelectItemModel::Aliased(e)) == is_count(e),
        !counts(SelectItemModel::Wildcard),
        !counts(SelectItemModel::QualifiedWildcard),
        is_scalar(p, item) <==> is_one_value(p, item),
{
    match item {
        SelectItemModel::Unnamed(inner) | SelectItemModel::Aliased(inner) => {
            law_expressions_are_searched_to_the_bottom(p, inner);
        },
        _ => {},
    }
}

/// A name is written in lower case with a dot between each two of its parts.
pub proof fn law_dotted_names(name: NameModel, part: Seq<char>)
    ensures
        name.parts.len() == 0 ==> dotted_lower(name) == Seq::<char>::empty(),
        name.parts.len() == 1 ==> dotted_lower(name) == lower(name.parts[0]),
        name.parts.len() > 0 ==> dotted_lower(
            NameModel { parts: name.parts.push(part), ..name },
        ) == dotted_lower(name) + seq!['.'] + lower(part),
{
    reveal_strlit(".");
    assert("."@ =~= seq!['.']);
    let fold = |s: Seq<char>| lower(s);
    let parts = name.parts.map_values(fold);
    if name.parts.len() == 1 {
        assert(parts[0] == lower(name.parts[0]));
    }
    if name.parts.len() > 0 {
        let more = name.parts.push(part).map_values(fold);
        assert(more.drop_last() =~= parts);
        assert(more.last() == lower(part));
    }
}

/// The shapes that need no LIMIT are what they are called.
pub proof fn law_bounded_shapes(p: PolicyModel, query: QueryModel)
    ensures
        reads_bounded_function(p, query) <==> reads_one_listed_function(p, query),
        counts_all(query) <==> counts_rows(query),
        computes_one_row(p, query) <==> computes_values(p, query),
{
    if let BodyModel::Select(boxed) = query.body {
        let select = *boxed;
        assert(query.body == BodyModel::Select(Box::new(select)));
        if select.from.len() == 1 {
            match select.from[0].relation {
                TableModel::Table { name, .. } => {
                    law_listing(p.bounded_table_functions, name);
                    assert(bounded_function(p, name) <==> lists(p.bounded_table_functions, name));
                },
                TableModel::Function { name, .. } => {
                    law_listing(p.bounded_table_functions, name);
                    assert(bounded_function(p, name) <==> lists(p.bounded_table_functions, name));
                },
                _ => {},
            }
        }
        if reads_bounded_function(p, query) {
            assert(is_plain_select(query, select));
            match select.from[0].relation {
                TableModel::Table { name, .. } => {
                    assert(is_call_of(select.from[0].relation, name));
                },
                TableModel::Function { name, .. } => {
                    assert(is_call_of(select.from[0].relation, name));
                },
                _ => {},
            }
            assert(reads_one_listed_function(p, query));
        }
        if counts_all(query) {
            assert(is_plain_select(query, select));
            match select.projection[0] {
                SelectItemModel::Unnamed(e) | SelectItemModel::Aliased(e) => {
                    assert(is_column(select.projection[0], e));
                    let call = e.visited[0]->Call_0;
                    assert(is_a_call(e, call));
                    assert(!prints_groups(query, "group by"@, "having"@));
                },
                _ => {},
            }
            assert(counts_rows(query));
        }
        assert forall|i: int| 0 <= i < select.projection.len() implies (is_scalar(
            p,
            #[trigger] select.projection[i],
        ) <==> is_one_value(p, select.projection[i])) by {
            match select.projection[i] {
                SelectItemModel::Unnamed(e) | SelectItemModel::Aliased(e) => {
                    law_expressions_are_searched_to_the_bottom(p, e);
                },
                _ => {},
            }
        }
        if computes_one_row(p, query) {
            assert(is_plain_select(query, select));
            assert(computes_values(p, query));
        }
        if computes_values(p, query) {
            let s = choose|s: SelectModel|
                {
                    &&& #[trigger] is_plain_select(query, s)
                    &&& s.from.len() == 0
                    &&& s.projection.len() > 0
                    &&& !prints_groups(query, " group by "@, " having "@)
                    &&& forall|i: int|
                        0 <= i < s.projection.len() ==> is_one_value(p, #[trigger] s.projection[i])
                };
            assert(s == select);
            assert(computes_one_row(p, query));
        }
    }
}

/// The LIMIT gate passes a query exactly if its OFFSET, if there is one, is a
/// number up to the cap, and its LIMIT is such a number too; without a LIMIT, if
/// it reads one listed table function, counts rows, or computes values from
/// nothing.
pub proof fn law_limits_pass_exactly(p: PolicyModel, query: QueryModel)
    ensures
        query_limit_refusal(p, query) is None <==> (query.offset matches Some(offset)
            ==> is_number_up_to(offset, p.max_limit)) && (match query.limit {
            Some(limit) => is_number_up_to(limit, p.max_limit),
            None => reads_one_listed_function(p, query) || counts_rows(query) || computes_values(
                p,
                query,
            ),
        }),
        query_offset_refusal(p, query) is None <==> (query.offset matches Some(offset)
            ==> is_number_up_to(offset, p.max_limit)),
{
    law_bounded_shapes(p, query);
    if let Some(offset) = query.offset {
        assert(offset_refusal(offset, p.max_limit) is None <==> is_number_up_to(
            offset,
            p.max_limit,
        ));
    }
    if let Some(limit) = query.limit {
        assert(limit_refusal(limit, p.max_limit) is None <==> is_number_up_to(limit, p.max_limit));
    }
}

/// A query that reads something and has no LIMIT passes only if it reads one
/// listed table function and nothing else, or its one output column is a call
/// named `count`, in any case, that is not over a window.
pub proof fn law_reading_without_limit(p: PolicyModel, query: QueryModel, select: SelectModel)
    requires
        query.body == BodyModel::Select(Box::new(select)),
        select.from.len() > 0,
        query.limit is None,
        query_limit_refusal(p, query) is None,
    ensures
        ({
            ||| select.from.len() == 1 && select.from[0].joins.len() == 0 && exists|name: NameModel|
                #[trigger]
                is_call_of(select.from[0].relation, name) && lists(p.bounded_table_functions, name)
            ||| select.projection.len() == 1 && exists|e: ExprModel, call: CallModel|
                {
                    &&& #[trigger] is_column(select.projection[0], e)
                    &&& #[trigger] is_a_call(e, call)
                    &&& !call.over
                    &&& same_ignoring_case(call.name.text, "count"@)
                }
        }),
        query.with is None && query.offset is None && !query.fetch,
{
    law_limits_pass_exactly(p, query);
}

/// A call by another name than `count` does not count rows: a query that reads
/// something, by way of one such column and with no listed function, needs a
/// LIMIT.
pub proof fn law_other_calls_need_a_limit(
    p: PolicyModel,
    query: QueryModel,
    select: SelectModel,
    e: ExprModel,
    call: CallModel,
)
    requires
        query.body == BodyModel::Select(Box::new(select)),
        select.from.len() > 0,
        query.limit is None,
        select.projection.len() == 1,
        is_column(select.projection[0], e),
        is_a_call(e, call),
        call.over || !same_ignoring_case(call.name.text, "count"@),
        p.bounded_table_functions.len() == 0,
    ensures
        query_limit_refusal(p, query) is Some,
{
    if query_limit_refusal(p, query) is None {
        law_reading_without_limit(p, query, select);
        assert(forall|other: ExprModel| #[trigger] is_column(select.projection[0], other) ==> other
            == e);
    }
}

/// What is said of a LIMIT or OFFSET that does not pass: that it is missing, with
/// the cap; too large, with the number and the cap; NULL or ALL; or not a number,
/// with how it is written.
pub proof fn law_limit_messages(p: PolicyModel, query: QueryModel, bound: BoundModel)
    ensures
        query.offset is None ==> query_offset_refusal(p, query) is None,
        query.offset == Some(bound) ==> query_offset_refusal(p, query) == offset_refusal(
            bound,
            p.max_limit,
        ),
        query.limit == Some(bound) && query_offset_refusal(p, query) is None
            ==> query_limit_refusal(p, query) == limit_refusal(bound, p.max_limit),
        query.limit is None && query_offset_refusal(p, query) is None && query_limit_refusal(
            p,
            query,
        ) is Some ==> query_limit_refusal(p, query) == Some(
            "Query must have a LIMIT clause. Add 'LIMIT "@ + decimal(p.max_limit as nat)
                + "' or less to prevent runaway queries."@,
        ),
        query.limit == Some(bound) && query_offset_refusal(p, query) is None ==> query_limit_refusal(p, query) == (
        match bound.literal {
            LiteralModel::Number(n) => if number_of(n) is None {
                Some("Invalid LIMIT value '"@ + n + "'. LIMIT must be a positive integer."@)
            } else if number_of(n)->0 > p.max_limit {
                Some(
                    "LIMIT "@ + decimal(number_of(n)->0 as nat)
                        + " is too large. Maximum allowed is "@ + decimal(p.max_limit as nat)
                        + "."@,
                )
            } else {
                None
            },
            LiteralModel::Null => Some("LIMIT NULL is not allowed. Use a numeric LIMIT value."@),
            LiteralModel::Identifier(word) => if same_ignoring_case(word, "ALL"@) {
                Some("LIMIT ALL is not allowed. Use a numeric LIMIT value."@)
            } else {
                Some(
                    "LIMIT must be a numeric literal (e.g., LIMIT 100). Found: "@ + bound.text
                        + ". Expressions, subqueries, and special values are not allowed."@,
                )
            },
            LiteralModel::Boolean(_) | LiteralModel::Other => Some(
                "LIMIT must be a numeric literal (e.g., LIMIT 100). Found: "@ + bound.text
                    + ". Expressions, subqueries, and special values are not allowed."@,
            ),
        }),
        query.offset == Some(bound) && query_offset_refusal(p, query) is Some
            ==> query_limit_refusal(p, query) == query_offset_refusal(p, query),
        query.offset == Some(bound) ==> query_offset_refusal(p, query) == (match bound.literal {
            LiteralModel::Number(n) => if number_of(n) is None {
                Some("Invalid OFFSET value '"@ + n + "'. OFFSET must be a non-negative integer."@)
            } else if number_of(n)->0 > p.max_limit {
                Some(
                    "OFFSET "@ + decimal(number_of(n)->0 as nat)
                        + " is too large. Maximum allowed is "@ + decimal(p.max_limit as nat)
                        + "."@,
                )
            } else {
                None
            },
            LiteralModel::Null => Some("OFFSET NULL is not allowed. Use a numeric OFFSET value."@),
            LiteralModel::Identifier(_) | LiteralModel::Boolean(_) | LiteralModel::Other => Some(
                "OFFSET must be a numeric literal (e.g., OFFSET 100). Found: "@ + bound.text
                    + ". Expressions, subqueries, and special values are not allowed."@,
            ),
        }),
{
}

/// A higher cap lets every query pass that passed before.
pub proof fn law_a_higher_cap_admits_more(p: PolicyModel, q: PolicyModel, query: QueryModel)
    requires
        q == (PolicyModel { max_limit: q.max_limit, ..p }),
        p.max_limit <= q.max_limit,
        query_limit_refusal(p, query) is None,
    ensures
        query_limit_refusal(q, query) is None,
{
    law_limits_pass_exactly(p, query);
    law_limits_pass_exactly(q, query);
    if computes_values(p, query) {
        let select = choose|select: SelectModel|
            {
                &&& #[trigger] is_plain_select(query, select)
                &&& select.from.len() == 0
                &&& select.projection.len() > 0
                &&& !prints_groups(query, " group by "@, " having "@)
                &&& forall|i: int|
                    0 <= i < select.projection.len() ==> is_one_value(
                        p,
                        #[trigger] select.projection[i],
                    )
            };
        assert forall|i: int| 0 <= i < select.projection.len() implies is_one_value(
            q,
            #[trigger] select.projection[i],
        ) by {
            assert(is_one_value(p, select.projection[i]));
            match select.projection[i] {
                SelectItemModel::Unnamed(e) | SelectItemModel::Aliased(e) => {
                    assert(gives_one_value(p, e));
                    assert(gives_one_value(q, e));
                },
                _ => {},
            }
        }
        assert(computes_values(q, query));
    }
}

} // verus!
