//! The aggregate alias law: an aggregate-shaped output column carries an alias.

use vstd::prelude::*;

use crate::policy::{listed, names};
use crate::refusal::refusal;
use crate::text::{chars_of, has_prefix, lower, matches_at, stands_at, text_of, to_lower};
use crate::tree::{
    item_models, BodyModel, BodyNode, ExprModel, ExprNode, QueryModel, QueryNode, SelectItemModel,
    SelectItemNode, SelectModel, SelectNode, VisitedExpr, VisitedModel,
};

verus! {

/// The refusal of an aggregate without an alias.
pub const AGGREGATE_ALIAS_ERROR: &'static str = "Alias the aggregate: count() AS n.";

/// Words that may follow the name of a base aggregate, one after another.
pub const COMBINATORS: [&'static str; 12] = [
    "simplestate",
    "mergestate",
    "ordefault",
    "distinct",
    "resample",
    "foreach",
    "ornull",
    "state",
    "merge",
    "array",
    "map",
    "if",
];

/// Aggregates that are known by their whole name.
pub const AGGREGATE_NAMES: [&'static str; 23] = [
    "any_value",
    "anyheavy",
    "anylast",
    "array_agg",
    "avgweighted",
    "bit_and",
    "bit_or",
    "bool_and",
    "bool_or",
    "corr",
    "every",
    "json_agg",
    "json_object_agg",
    "jsonb_agg",
    "jsonb_object_agg",
    "mode",
    "string_agg",
    "variance",
    "var_pop",
    "var_samp",
    "varpop",
    "varsamp",
    "xmlagg",
];

/// Beginnings of names that only aggregates have.
pub const AGGREGATE_FAMILIES: [&'static str; 11] = [
    "grouparray",
    "groupbitmap",
    "groupuniqarray",
    "median",
    "percentile",
    "quantile",
    "stddev",
    "topk",
    "uniq",
    "covar",
    "regr",
];

/// Aggregates that take combinators after their name.
pub const AGGREGATE_BASES: [&'static str; 8] = [
    "any",
    "argmax",
    "argmin",
    "avg",
    "count",
    "max",
    "min",
    "sum",
];

/// The text is made of combinators, one after another; of none, if it is
/// empty.
pub open spec fn combinator_chain(s: Seq<char>) -> bool
    decreases s.len(),
{
    s.len() == 0 || exists|i: int|
        #![trigger COMBINATORS@[i]]
        0 <= i < COMBINATORS@.len() && COMBINATORS@[i]@.is_prefix_of(s) && COMBINATORS@[i]@.len()
            > 0 && combinator_chain(s.skip(COMBINATORS@[i]@.len() as int))
}

/// The name is that of an aggregate, ASCII case ignored: a known name, a known
/// family, or a base followed by combinators.
pub open spec fn aggregate_name(name: Seq<char>) -> bool {
    let s = lower(name);
    ||| listed(AGGREGATE_NAMES@).contains(s)
    ||| exists|i: int|
        0 <= i < AGGREGATE_FAMILIES@.len() && (#[trigger] AGGREGATE_FAMILIES@[i])@.is_prefix_of(s)
    ||| exists|i: int|
        0 <= i < AGGREGATE_BASES@.len() && (#[trigger] AGGREGATE_BASES@[i])@.is_prefix_of(s)
            && combinator_chain(s.skip(AGGREGATE_BASES@[i]@.len() as int))
}

/// The expression itself is a call of an aggregate.
pub open spec fn is_aggregate(e: VisitedModel) -> bool {
    &&& e matches VisitedModel::Call(call)
    &&& call.name.parts.len() > 0
    &&& aggregate_name(call.name.parts.last())
}

/// Somewhere in the expression stands a call of an aggregate.
pub open spec fn has_aggregate(e: ExprModel) -> bool {
    exists|i: int| 0 <= i < e.visited.len() && is_aggregate(#[trigger] e.visited[i])
}

/// The item computes an aggregate and carries no alias.
pub open spec fn needs_alias(item: SelectItemModel) -> bool {
    item matches SelectItemModel::Unnamed(e) && has_aggregate(e)
}

/// The SELECT whose list names the columns of the result.
pub open spec fn output_select(body: BodyModel) -> Option<SelectModel>
    decreases body,
{
    match body {
        BodyModel::Select(select) => Some(*select),
        BodyModel::Query(query) => output_select(query.body),
        BodyModel::SetOperation { left, .. } => output_select(*left),
        BodyModel::Values
        | BodyModel::Table
        | BodyModel::Insert(_)
        | BodyModel::Update(_) => None,
    }
}

/// An output column of the query needs an alias and has none.
pub open spec fn lacks_alias(query: QueryModel) -> bool {
    &&& output_select(query.body) matches Some(select)
    &&& exists|i: int|
        0 <= i < select.projection.len() && needs_alias(#[trigger] select.projection[i])
}

/// Why the output columns of a query are refused.
pub open spec fn alias_refusal(query: QueryModel) -> Option<Seq<char>> {
    if lacks_alias(query) {
        Some(AGGREGATE_ALIAS_ERROR@)
    } else {
        None
    }
}

/// The lengths and first characters by which combinators are told apart.
proof fn lemma_combinator_letters()
    ensures
        COMBINATORS@.len() == 12,
        COMBINATORS@[0]@ =~= seq!['s', 'i', 'm', 'p', 'l', 'e', 's', 't', 'a', 't', 'e'],
        COMBINATORS@[1]@ =~= seq!['m', 'e', 'r', 'g', 'e', 's', 't', 'a', 't', 'e'],
        COMBINATORS@[2]@ =~= seq!['o', 'r', 'd', 'e', 'f', 'a', 'u', 'l', 't'],
        COMBINATORS@[3]@ =~= seq!['d', 'i', 's', 't', 'i', 'n', 'c', 't'],
        COMBINATORS@[4]@ =~= seq!['r', 'e', 's', 'a', 'm', 'p', 'l', 'e'],
        COMBINATORS@[5]@ =~= seq!['f', 'o', 'r', 'e', 'a', 'c', 'h'],
        COMBINATORS@[6]@ =~= seq!['o', 'r', 'n', 'u', 'l', 'l'],
        COMBINATORS@[7]@ =~= seq!['s', 't', 'a', 't', 'e'],
        COMBINATORS@[8]@ =~= seq!['m', 'e', 'r', 'g', 'e'],
        COMBINATORS@[9]@ =~= seq!['a', 'r', 'r', 'a', 'y'],
        COMBINATORS@[10]@ =~= seq!['m', 'a', 'p'],
        COMBINATORS@[11]@ =~= seq!['i', 'f'],
{
    reveal_strlit("simplestate");
    reveal_strlit("mergestate");
    reveal_strlit("ordefault");
    reveal_strlit("distinct");
    reveal_strlit("resample");
    reveal_strlit("foreach");
    reveal_strlit("ornull");
    reveal_strlit("state");
    reveal_strlit("merge");
    reveal_strlit("array");
    reveal_strlit("map");
    reveal_strlit("if");
}

/// Two combinators that both begin a text are the same one, or `mergestate`
/// and `merge`.
proof fn lemma_combinators_differ(s: Seq<char>, i: int, j: int)
    requires
        0 <= i < j < COMBINATORS@.len(),
        COMBINATORS@[i]@.is_prefix_of(s),
        COMBINATORS@[j]@.is_prefix_of(s),
    ensures
        i == 1 && j == 8,
{
    lemma_combinator_letters();
    let a = COMBINATORS@[i]@;
    let b = COMBINATORS@[j]@;
    assert(a.len() >= 2 && b.len() >= 2);
    assert(s[0] == a[0] && s[1] == a[1] && s[0] == b[0] && s[1] == b[1]);
    if i == 2 {
        assert(s[2] == a[2] && s[2] == b[2]);
    }
}

/// The combinator that stands first in the list decides.
proof fn lemma_first_combinator_decides(s: Seq<char>, i: int)
    requires
        0 <= i < COMBINATORS@.len(),
        COMBINATORS@[i]@.is_prefix_of(s),
        forall|j: int| 0 <= j < i ==> !(#[trigger] COMBINATORS@[j])@.is_prefix_of(s),
    ensures
        COMBINATORS@[i]@.len() > 0,
        combinator_chain(s) == combinator_chain(s.skip(COMBINATORS@[i]@.len() as int)),
{
    lemma_combinator_letters();
    let rest = s.skip(COMBINATORS@[i]@.len() as int);
    assert(COMBINATORS@[i]@.len() > 0);
    if combinator_chain(s) {
        let k = choose|k: int|
            #![trigger COMBINATORS@[k]]
            0 <= k < COMBINATORS@.len() && COMBINATORS@[k]@.is_prefix_of(s)
                && COMBINATORS@[k]@.len() > 0 && combinator_chain(
                s.skip(COMBINATORS@[k]@.len() as int),
            );
        if k > i {
            lemma_combinators_differ(s, i, k);
            // `merge` was taken off; `state` comes next, and nothing else can.
            let after = s.skip(5);
            assert(combinator_chain(after));
            assert(COMBINATORS@[7]@.is_prefix_of(after)) by {
                assert forall|n: int| 0 <= n < 5 implies after[n] == COMBINATORS@[7]@[n] by {
                    assert(s[n + 5] == COMBINATORS@[1]@[n + 5]);
                }
                assert(after.subrange(0, 5) =~= COMBINATORS@[7]@);
            }
            let m = choose|m: int|
                #![trigger COMBINATORS@[m]]
                0 <= m < COMBINATORS@.len() && COMBINATORS@[m]@.is_prefix_of(after)
                    && COMBINATORS@[m]@.len() > 0 && combinator_chain(
                    after.skip(COMBINATORS@[m]@.len() as int),
                );
            if m < 7 {
                lemma_combinators_differ(after, m, 7);
            } else if m > 7 {
                lemma_combinators_differ(after, 7, m);
            }
            assert(after.skip(5) =~= rest);
        }
    }
}

/// Whether a name's ending is made of combinators.
pub fn aggregate_combinator_suffix(suffix: &str) -> (r: bool)
    ensures
        r == combinator_chain(suffix@),
{
    let chars = chars_of(suffix);
    let list = COMBINATORS;
    let mut at: usize = 0;
    assert(chars@.skip(0) =~= chars@);
    while at < chars.len()
        invariant
            list == COMBINATORS,
            at <= chars.len(),
            combinator_chain(suffix@) == combinator_chain(chars@.skip(at as int)),
        decreases chars.len() - at,
    {
        let ghost s = chars@.skip(at as int);
        let start = at;
        let mut i: usize = 0;
        while i < list.len() && at == start
            invariant
                list == COMBINATORS,
                i <= list@.len(),
                start < chars.len(),
                s == chars@.skip(start as int),
                at == start ==> forall|j: int|
                    0 <= j < i ==> !(#[trigger] COMBINATORS@[j])@.is_prefix_of(s),
                start <= at <= chars.len(),
                at > start ==> combinator_chain(s) == combinator_chain(chars@.skip(at as int)),
            decreases list@.len() - i,
        {
            let word = chars_of(list[i]);
            assert(word@ == COMBINATORS@[i as int]@);
            if word.len() <= chars.len() - at && matches_at(&chars, &word, at) {
                assert(word@.is_prefix_of(s)) by {
                    assert(s.subrange(0, word@.len() as int) =~= chars@.subrange(
                        at as int,
                        at + word@.len(),
                    ));
                }
                proof {
                    lemma_first_combinator_decides(s, i as int);
                    assert(s.skip(word@.len() as int) =~= chars@.skip(at + word@.len()));
                }
                at = at + word.len();
            } else {
                assert(!word@.is_prefix_of(s)) by {
                    if word@.is_prefix_of(s) {
                        assert(chars@.subrange(at as int, at + word@.len()) =~= s.subrange(
                            0,
                            word@.len() as int,
                        ));
                        assert(stands_at(chars@, word@, at as int));
                    }
                }
            }
            i += 1;
        }
        if at == start {
            assert(!combinator_chain(s));
            return false;
        }
    }
    assert(chars@.skip(at as int).len() == 0);
    true
}

/// Whether one of the families begins the text.
fn has_family(s: &str) -> (r: bool)
    ensures
        r == exists|i: int|
            0 <= i < AGGREGATE_FAMILIES@.len() && (
            #[trigger] AGGREGATE_FAMILIES@[i])@.is_prefix_of(s@),
{
    let list = AGGREGATE_FAMILIES;
    let mut i: usize = 0;
    while i < list.len()
        invariant
            list == AGGREGATE_FAMILIES,
            i <= list@.len(),
            forall|j: int| 0 <= j < i ==> !(#[trigger] AGGREGATE_FAMILIES@[j])@.is_prefix_of(s@),
        decreases list@.len() - i,
    {
        if has_prefix(s, list[i]) {
            assert(AGGREGATE_FAMILIES@[i as int]@.is_prefix_of(s@));
            return true;
        }
        i += 1;
    }
    false
}

/// The text without its first `count` characters.
fn without_start(s: &str, count: usize) -> (r: String)
    requires
        count <= s@.len(),
    ensures
        r@ == s@.skip(count as int),
{
    let chars = chars_of(s);
    let mut rest: Vec<char> = Vec::new();
    let mut i: usize = count;
    while i < chars.len()
        invariant
            count <= i <= chars.len(),
            rest@ == chars@.subrange(count as int, i as int),
        decreases chars.len() - i,
    {
        rest.push(chars[i]);
        i += 1;
    }
    assert(rest@ =~= s@.skip(count as int));
    text_of(&rest)
}

/// Whether the text is a base followed by combinators.
fn is_combined(s: &str) -> (r: bool)
    ensures
        r == exists|i: int|
            0 <= i < AGGREGATE_BASES@.len() && (#[trigger] AGGREGATE_BASES@[i])@.is_prefix_of(s@)
                && combinator_chain(s@.skip(AGGREGATE_BASES@[i]@.len() as int)),
{
    let list = AGGREGATE_BASES;
    let mut i: usize = 0;
    while i < list.len()
        invariant
            list == AGGREGATE_BASES,
            i <= list@.len(),
            forall|j: int|
                0 <= j < i ==> !((#[trigger] AGGREGATE_BASES@[j])@.is_prefix_of(s@)
                    && combinator_chain(s@.skip(AGGREGATE_BASES@[j]@.len() as int))),
        decreases list@.len() - i,
    {
        if has_prefix(s, list[i]) {
            let base = chars_of(list[i]);
            assert(base@ == AGGREGATE_BASES@[i as int]@);
            let rest = without_start(s, base.len());
            if aggregate_combinator_suffix(rest.as_str()) {
                return true;
            }
        }
        i += 1;
    }
    false
}

/// Whether the name is that of an aggregate, ASCII case ignored.
pub fn is_aggregate_function_name(name: &str) -> (r: bool)
    ensures
        r == aggregate_name(name@),
{
    let folded = to_lower(name);
    names(&AGGREGATE_NAMES, folded.as_str()) || has_family(folded.as_str()) || is_combined(
        folded.as_str(),
    )
}

/// Whether somewhere in the expression stands a call of an aggregate.
fn expression_contains_aggregate(expr: &ExprNode) -> (r: bool)
    ensures
        r == has_aggregate(expr.model()),
{
    let mut i: usize = 0;
    while i < expr.visited.len()
        invariant
            i <= expr.visited.len(),
            forall|j: int| 0 <= j < i ==> !is_aggregate(#[trigger] expr.model().visited[j]),
        decreases expr.visited.len() - i,
    {
        let found = match &expr.visited[i] {
            VisitedExpr::Call(call) => {
                let n = call.name.parts.len();
                n > 0 && is_aggregate_function_name(call.name.parts[n - 1].as_str())
            },
            _ => false,
        };
        assert(found == is_aggregate(expr.model().visited[i as int]));
        if found {
            return true;
        }
        i += 1;
    }
    false
}

/// The SELECT whose list names the columns of the result.
fn result_select<'a>(body: &'a BodyNode) -> (r: Option<&'a SelectNode>)
    ensures
        (match r {
            Some(select) => Some(select.model()),
            None => None,
        }) == output_select(body.model()),
    decreases *body,
{
    match body {
        BodyNode::Select(select) => Some(select),
        BodyNode::Query(query) => {
            assert(query.model().body == query.body.model());
            result_select(&query.body)
        },
        BodyNode::SetOperation { left, .. } => result_select(left),
        BodyNode::Values | BodyNode::Table | BodyNode::Insert(_) | BodyNode::Update(_) => None,
    }
}

/// Refuse aggregate-shaped public output names before execution. Aliases on
/// inner implementation queries are not required; only the result-defining
/// projection is public.
pub fn validate_aggregate_aliases(query: &QueryNode) -> (r: Result<(), String>)
    ensures
        refusal(r) == alias_refusal(query.model()),
{
    match result_select(&query.body) {
        None => Ok(()),
        Some(select) => {
            let ghost items = select.model().projection;
            assert(items == item_models(select.projection@));
            let mut i: usize = 0;
            while i < select.projection.len()
                invariant
                    i <= select.projection.len(),
                    items == item_models(select.projection@),
                    output_select(query.model().body) == Some(select.model()),
                    items == select.model().projection,
                    forall|j: int| 0 <= j < i ==> !needs_alias(#[trigger] items[j]),
                decreases select.projection.len() - i,
            {
                assert(items[i as int] == select.projection@[i as int].model());
                if let SelectItemNode::Unnamed(expr) = &select.projection[i] {
                    if expression_contains_aggregate(expr) {
                        assert(needs_alias(
                            output_select(query.model().body)->0.projection[i as int],
                        ));
                        return Err(AGGREGATE_ALIAS_ERROR.to_string());
                    }
                }
                i += 1;
            }
            Ok(())
        },
    }
}

/// Only the columns of the result matter: queries whose results are named by
/// the same SELECT are refused alike, whatever else stands in them.
pub proof fn law_only_output_columns_matter(a: QueryModel, b: QueryModel)
    requires
        output_select(a.body) == output_select(b.body),
    ensures
        alias_refusal(a) == alias_refusal(b),
{
}

/// An alias is enough: a SELECT list in which every expression is aliased, or
/// computes no aggregate, is never refused.
pub proof fn law_aliases_are_enough(query: QueryModel, select: SelectModel)
    requires
        output_select(query.body) == Some(select),
        forall|i: int|
            0 <= i < select.projection.len() ==> (#[trigger] select.projection[i] matches
                SelectItemModel::Unnamed(e) ==> !has_aggregate(e)),
    ensures
        alias_refusal(query) is None,
{
}

} // verus!
