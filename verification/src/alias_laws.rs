//! Laws on aliases: which names are those of aggregates, and which output columns
//! need an alias.

use vstd::prelude::*;

use crate::aggregates::{
    aggregate_name, alias_refusal, combinator_chain, has_aggregate, is_aggregate, lacks_alias,
    needs_alias, output_select, AGGREGATE_BASES, AGGREGATE_FAMILIES, AGGREGATE_NAMES, COMBINATORS,
};
use crate::policy::listed;
use crate::text::lower;
use crate::tree::{
    BodyModel, CallModel, ExprModel, QueryModel, SelectItemModel, SelectModel, VisitedModel,
};

verus! {

/// A word that may follow the name of a base aggregate.
pub open spec fn is_combinator(w: Seq<char>) -> bool {
    ||| w == "simplestate"@
    ||| w == "mergestate"@
    ||| w == "ordefault"@
    ||| w == "distinct"@
    ||| w == "resample"@
    ||| w == "foreach"@
    ||| w == "ornull"@
    ||| w == "state"@
    ||| w == "merge"@
    ||| w == "array"@
    ||| w == "map"@
    ||| w == "if"@
}

/// An aggregate that takes combinators.
pub open spec fn is_base(w: Seq<char>) -> bool {
    ||| w == "any"@
    ||| w == "argmax"@
    ||| w == "argmin"@
    ||| w == "avg"@
    ||| w == "count"@
    ||| w == "max"@
    ||| w == "min"@
    ||| w == "sum"@
}

/// A beginning that only names of aggregates have.
pub open spec fn is_family(w: Seq<char>) -> bool {
    ||| w == "grouparray"@
    ||| w == "groupbitmap"@
    ||| w == "groupuniqarray"@
    ||| w == "median"@
    ||| w == "percentile"@
    ||| w == "quantile"@
    ||| w == "stddev"@
    ||| w == "topk"@
    ||| w == "uniq"@
    ||| w == "covar"@
    ||| w == "regr"@
}

/// An aggregate that is known by its whole name.
pub open spec fn is_known(w: Seq<char>) -> bool {
    ||| w == "any_value"@
    ||| w == "anyheavy"@
    ||| w == "anylast"@
    ||| w == "array_agg"@
    ||| w == "avgweighted"@
    ||| w == "bit_and"@
    ||| w == "bit_or"@
    ||| w == "bool_and"@
    ||| w == "bool_or"@
    ||| w == "corr"@
    ||| w == "every"@
    ||| w == "json_agg"@
    ||| w == "json_object_agg"@
    ||| w == "jsonb_agg"@
    ||| w == "jsonb_object_agg"@
    ||| w == "mode"@
    ||| w == "string_agg"@
    ||| w == "variance"@
    ||| w == "var_pop"@
    ||| w == "var_samp"@
    ||| w == "varpop"@
    ||| w == "varsamp"@
    ||| w == "xmlagg"@
}

/// The words one right after another.
pub open spec fn run_together(words: Seq<Seq<char>>) -> Seq<char>
    decreases words.len(),
{
    if words.len() == 0 {
        Seq::empty()
    } else {
        words[0] + run_together(words.skip(1))
    }
}

/// The text is a base and then combinators.
pub open spec fn is_combined(text: Seq<char>, base: Seq<char>, words: Seq<Seq<char>>) -> bool {
    &&& is_base(base)
    &&& forall|k: int| 0 <= k < words.len() ==> is_combinator(#[trigger] words[k])
    &&& text == base + run_together(words)
}

/// The text begins with the family.
pub open spec fn is_of_family(text: Seq<char>, family: Seq<char>) -> bool {
    is_family(family) && family.is_prefix_of(text)
}

proof fn lemma_combinators(w: Seq<char>)
    ensures
        is_combinator(w) <==> exists|i: int|
            0 <= i < COMBINATORS@.len() && (#[trigger] COMBINATORS@[i])@ == w,
        is_combinator(w) ==> w.len() > 0,
{
    reveal_strlit("simplestate");
    reveal_strlit("mergestate");
    reveal_strlit("ordefault");
    reveal_strlit("distinct");
    reveal_strlit("resample");
    reveal_strlit("foreach");
    reveal_strlit("ornull");
    reveal_strlit("state");
    reveal_strlit("merge");
    reveal_strlit("array");
    reveal_strlit("map");
    reveal_strlit("if");
    assert(COMBINATORS@[0]@ == "simplestate"@);
    assert(COMBINATORS@[1]@ == "mergestate"@);
    assert(COMBINATORS@[2]@ == "ordefault"@);
    assert(COMBINATORS@[3]@ == "distinct"@);
    assert(COMBINATORS@[4]@ == "resample"@);
    assert(COMBINATORS@[5]@ == "foreach"@);
    assert(COMBINATORS@[6]@ == "ornull"@);
    assert(COMBINATORS@[7]@ == "state"@);
    assert(COMBINATORS@[8]@ == "merge"@);
    assert(COMBINATORS@[9]@ == "array"@);
    assert(COMBINATORS@[10]@ == "map"@);
    assert(COMBINATORS@[11]@ == "if"@);
    assert(COMBINATORS@.len() == 12);
    if is_combinator(w) {
        assert(exists|i: int| 0 <= i < COMBINATORS@.len() && (#[trigger] COMBINATORS@[i])@ == w);
    }
}

proof fn lemma_bases(w: Seq<char>)
    ensures
        is_base(w) <==> exists|i: int|
            0 <= i < AGGREGATE_BASES@.len() && (#[trigger] AGGREGATE_BASES@[i])@ == w,
{
    assert(AGGREGATE_BASES@[0]@ == "any"@);
    assert(AGGREGATE_BASES@[1]@ == "argmax"@);
    assert(AGGREGATE_BASES@[2]@ == "argmin"@);
    assert(AGGREGATE_BASES@[3]@ == "avg"@);
    assert(AGGREGATE_BASES@[4]@ == "count"@);
    assert(AGGREGATE_BASES@[5]@ == "max"@);
    assert(AGGREGATE_BASES@[6]@ == "min"@);
    assert(AGGREGATE_BASES@[7]@ == "sum"@);
    assert(AGGREGATE_BASES@.len() == 8);
}

proof fn lemma_families(w: Seq<char>)
    ensures
        is_family(w) <==> exists|i: int|
            0 <= i < AGGREGATE_FAMILIES@.len() && (#[trigger] AGGREGATE_FAMILIES@[i])@ == w,
{
    assert(AGGREGATE_FAMILIES@[0]@ == "grouparray"@);
    assert(AGGREGATE_FAMILIES@[1]@ == "groupbitmap"@);
    assert(AGGREGATE_FAMILIES@[2]@ == "groupuniqarray"@);
    assert(AGGREGATE_FAMILIES@[3]@ == "median"@);
    assert(AGGREGATE_FAMILIES@[4]@ == "percentile"@);
    assert(AGGREGATE_FAMILIES@[5]@ == "quantile"@);
    assert(AGGREGATE_FAMILIES@[6]@ == "stddev"@);
    assert(AGGREGATE_FAMILIES@[7]@ == "topk"@);
    assert(AGGREGATE_FAMILIES@[8]@ == "uniq"@);
    assert(AGGREGATE_FAMILIES@[9]@ == "covar"@);
    assert(AGGREGATE_FAMILIES@[10]@ == "regr"@);
    assert(AGGREGATE_FAMILIES@.len() == 11);
}

proof fn lemma_known(w: Seq<char>)
    ensures
        is_known(w) <==> listed(AGGREGATE_NAMES@).contains(w),
{
    assert(AGGREGATE_NAMES@[0]@ == "any_value"@);
    assert(AGGREGATE_NAMES@[1]@ == "anyheavy"@);
    assert(AGGREGATE_NAMES@[2]@ == "anylast"@);
    assert(AGGREGATE_NAMES@[3]@ == "array_agg"@);
    assert(AGGREGATE_NAMES@[4]@ == "avgweighted"@);
    assert(AGGREGATE_NAMES@[5]@ == "bit_and"@);
    assert(AGGREGATE_NAMES@[6]@ == "bit_or"@);
    assert(AGGREGATE_NAMES@[7]@ == "bool_and"@);
    assert(AGGREGATE_NAMES@[8]@ == "bool_or"@);
    assert(AGGREGATE_NAMES@[9]@ == "corr"@);
    assert(AGGREGATE_NAMES@[10]@ == "every"@);
    assert(AGGREGATE_NAMES@[11]@ == "json_agg"@);
    assert(AGGREGATE_NAMES@[12]@ == "json_object_agg"@);
    assert(AGGREGATE_NAMES@[13]@ == "jsonb_agg"@);
    assert(AGGREGATE_NAMES@[14]@ == "jsonb_object_agg"@);
    assert(AGGREGATE_NAMES@[15]@ == "mode"@);
    assert(AGGREGATE_NAMES@[16]@ == "string_agg"@);
    assert(AGGREGATE_NAMES@[17]@ == "variance"@);
    assert(AGGREGATE_NAMES@[18]@ == "var_pop"@);
    assert(AGGREGATE_NAMES@[19]@ == "var_samp"@);
    assert(AGGREGATE_NAMES@[20]@ == "varpop"@);
    assert(AGGREGATE_NAMES@[21]@ == "varsamp"@);
    assert(AGGREGATE_NAMES@[22]@ == "xmlagg"@);
    assert(AGGREGATE_NAMES@.len() == 23);
    let all = listed(AGGREGATE_NAMES@);
    assert forall|i: int| 0 <= i < all.len() implies #[trigger] all[i] == AGGREGATE_NAMES@[i]@ by {}
    if is_known(w) {
        assert(exists|i: int| 0 <= i < all.len() && #[trigger] all[i] == w) by {
            assert(exists|i: int| 0 <= i < AGGREGATE_NAMES@.len() && (#[trigger] AGGREGATE_NAMES@[i])@ == w);
            let i = choose|i: int|
                0 <= i < AGGREGATE_NAMES@.len() && (#[trigger] AGGREGATE_NAMES@[i])@ == w;
            assert(all[i] == w);
        }
    }
    if all.contains(w) {
        let i = choose|i: int| 0 <= i < all.len() && all[i] == w;
        assert(AGGREGATE_NAMES@[i]@ == w);
    }
}

/// A chain of combinators is combinators run together.
proof fn lemma_chain(s: Seq<char>)
    ensures
        combinator_chain(s) ==> exists|words: Seq<Seq<char>>|
            s == #[trigger] run_together(words) && forall|k: int|
                0 <= k < words.len() ==> is_combinator(#[trigger] words[k]),
    decreases s.len(),
{
    if combinator_chain(s) {
        if s.len() == 0 {
            let none = Seq::<Seq<char>>::empty();
            assert(run_together(none) =~= s);
        } else {
            let i = choose|i: int|
                #![trigger COMBINATORS@[i]]
                0 <= i < COMBINATORS@.len() && COMBINATORS@[i]@.is_prefix_of(s)
                    && COMBINATORS@[i]@.len() > 0 && combinator_chain(
                    s.skip(COMBINATORS@[i]@.len() as int),
                );
            let w = COMBINATORS@[i]@;
            let rest = s.skip(w.len() as int);
            lemma_chain(rest);
            let tail = choose|tail: Seq<Seq<char>>|
                rest == #[trigger] run_together(tail) && forall|k: int|
                    0 <= k < tail.len() ==> is_combinator(#[trigger] tail[k]);
            let words = seq![w] + tail;
            assert(words.skip(1) =~= tail);
            assert(s =~= w + rest);
            lemma_combinators(w);
            assert forall|k: int| 0 <= k < words.len() implies is_combinator(#[trigger] words[k]) by {
                if k > 0 {
                    assert(words[k] == tail[k - 1]);
                }
            }
            assert(s == run_together(words));
        }
    }
}

/// Combinators run together are a chain of them.
proof fn lemma_run(words: Seq<Seq<char>>)
    requires
        forall|k: int| 0 <= k < words.len() ==> is_combinator(#[trigger] words[k]),
    ensures
        combinator_chain(run_together(words)),
    decreases words.len(),
{
    if words.len() > 0 {
        let rest = words.skip(1);
        assert forall|k: int| 0 <= k < rest.len() implies is_combinator(#[trigger] rest[k]) by {
            assert(rest[k] == words[k + 1]);
        }
        lemma_run(rest);
        let w = words[0];
        lemma_combinators(w);
        let i = choose|i: int| 0 <= i < COMBINATORS@.len() && (#[trigger] COMBINATORS@[i])@ == w;
        let s = run_together(words);
        assert(s.skip(w.len() as int) =~= run_together(rest));
        assert(w.is_prefix_of(s));
        assert(COMBINATORS@[i]@.is_prefix_of(s));
    }
}

/// A text is a chain of combinators exactly if it is combinators run together,
/// any number of them.
pub proof fn law_chains(s: Seq<char>)
    ensures
        combinator_chain(s) <==> exists|words: Seq<Seq<char>>|
            s == #[trigger] run_together(words) && forall|k: int|
                0 <= k < words.len() ==> is_combinator(#[trigger] words[k]),
{
    lemma_chain(s);
    if exists|words: Seq<Seq<char>>|
        s == #[trigger] run_together(words) && forall|k: int|
            0 <= k < words.len() ==> is_combinator(#[trigger] words[k]) {
        let words = choose|words: Seq<Seq<char>>|
            s == #[trigger] run_together(words) && forall|k: int|
                0 <= k < words.len() ==> is_combinator(#[trigger] words[k]);
        lemma_run(words);
    }
}

/// A name is that of an aggregate exactly if, in lower case, it is a known name,
/// is of a family, or is a base and then combinators, any number of them.
pub proof fn law_aggregates_are_known_by_name(name: Seq<char>)
    ensures
        aggregate_name(name) <==> is_known(lower(name)) || (exists|family: Seq<char>| #[trigger]
            is_of_family(lower(name), family)) || (exists|
            base: Seq<char>,
            words: Seq<Seq<char>>,
        | #[trigger]
            is_combined(lower(name), base, words)),
{
    let s = lower(name);
    lemma_known(s);
    if exists|i: int|
        0 <= i < AGGREGATE_FAMILIES@.len() && (#[trigger] AGGREGATE_FAMILIES@[i])@.is_prefix_of(s) {
        let i = choose|i: int|
            0 <= i < AGGREGATE_FAMILIES@.len() && (#[trigger] AGGREGATE_FAMILIES@[i])@.is_prefix_of(
                s,
            );
        lemma_families(AGGREGATE_FAMILIES@[i]@);
        assert(is_of_family(s, AGGREGATE_FAMILIES@[i]@));
    }
    if exists|family: Seq<char>| #[trigger] is_of_family(s, family) {
        let family = choose|family: Seq<char>| #[trigger] is_of_family(s, family);
        lemma_families(family);
        let i = choose|i: int|
            0 <= i < AGGREGATE_FAMILIES@.len() && (#[trigger] AGGREGATE_FAMILIES@[i])@ == family;
        assert(AGGREGATE_FAMILIES@[i]@.is_prefix_of(s));
    }
    if exists|i: int|
        0 <= i < AGGREGATE_BASES@.len() && (#[trigger] AGGREGATE_BASES@[i])@.is_prefix_of(s)
            && combinator_chain(s.skip(AGGREGATE_BASES@[i]@.len() as int)) {
        let i = choose|i: int|
            0 <= i < AGGREGATE_BASES@.len() && (#[trigger] AGGREGATE_BASES@[i])@.is_prefix_of(s)
                && combinator_chain(s.skip(AGGREGATE_BASES@[i]@.len() as int));
        let base = AGGREGATE_BASES@[i]@;
        lemma_bases(base);
        let rest = s.skip(base.len() as int);
        lemma_chain(rest);
        let words = choose|words: Seq<Seq<char>>|
            rest == #[trigger] run_together(words) && forall|k: int|
                0 <= k < words.len() ==> is_combinator(#[trigger] words[k]);
        assert(s =~= base + rest);
        assert(is_combined(s, base, words));
    }
    if exists|base: Seq<char>, words: Seq<Seq<char>>| #[trigger] is_combined(s, base, words) {
        let (base, words) = choose|base: Seq<char>, words: Seq<Seq<char>>| #[trigger]
            is_combined(s, base, words);
        lemma_bases(base);
        lemma_run(words);
        let i = choose|i: int|
            0 <= i < AGGREGATE_BASES@.len() && (#[trigger] AGGREGATE_BASES@[i])@ == base;
        assert(base.is_prefix_of(s));
        assert(s.skip(base.len() as int) =~= run_together(words));
        assert(AGGREGATE_BASES@[i]@.is_prefix_of(s));
    }
}

/// The list of the SELECT names the columns of the result: it is the body, the
/// body in parentheses, or the first operand of a set operation.
pub open spec fn names_columns(body: BodyModel, select: SelectModel) -> bool
    decreases body,
{
    ||| body == BodyModel::Select(Box::new(select))
    ||| body matches BodyModel::Query(query) && names_columns(query.body, select)
    ||| body matches BodyModel::SetOperation { left, .. } && names_columns(*left, select)
}

/// The call stands in the expression.
pub open spec fn call_in(e: ExprModel, call: CallModel) -> bool {
    exists|k: int| 0 <= k < e.visited.len() && #[trigger] e.visited[k] == VisitedModel::Call(call)
}

/// The item has no alias, and in it stands a call whose name ends in that of an
/// aggregate.
pub open spec fn is_nameless_aggregate(item: SelectItemModel, e: ExprModel, call: CallModel) -> bool {
    &&& item == SelectItemModel::Unnamed(e)
    &&& call_in(e, call)
    &&& call.name.parts.len() > 0
    &&& aggregate_name(call.name.parts[call.name.parts.len() - 1])
}

/// The SELECT is the one that names the columns exactly if it is found as such.
proof fn lemma_names_columns(body: BodyModel, select: SelectModel)
    ensures
        names_columns(body, select) <==> output_select(body) == Some(select),
    decreases body,
{
    match body {
        BodyModel::Select(s) => {
            if *s == select {
                assert(body == BodyModel::Select(Box::new(select)));
            }
        },
        BodyModel::Query(query) => {
            lemma_names_columns(query.body, select);
        },
        BodyModel::SetOperation { left, .. } => {
            lemma_names_columns(*left, select);
        },
        _ => {},
    }
}

/// A query is refused for its aliases exactly if one of the columns that name its
/// result is an aggregate without an alias.
pub proof fn law_aliases_are_asked_of_output_columns(query: QueryModel)
    ensures
        lacks_alias(query) <==> exists|
            select: SelectModel,
            i: int,
            e: ExprModel,
            call: CallModel,
        |
            #![trigger names_columns(query.body, select), is_nameless_aggregate(
                select.projection[i],
                e,
                call,
            )]
            names_columns(query.body, select) && 0 <= i < select.projection.len()
                && is_nameless_aggregate(select.projection[i], e, call),
        alias_refusal(query) == (if lacks_alias(query) {
            Some("Alias the aggregate: count() AS n."@)
        } else {
            None
        }),
{
    if lacks_alias(query) {
        let select = output_select(query.body)->0;
        lemma_names_columns(query.body, select);
        let i = choose|i: int|
            0 <= i < select.projection.len() && needs_alias(#[trigger] select.projection[i]);
        let e = select.projection[i]->Unnamed_0;
        assert(has_aggregate(e));
        let k = choose|k: int| 0 <= k < e.visited.len() && is_aggregate(#[trigger] e.visited[k]);
        let call = e.visited[k]->Call_0;
        assert(e.visited[k] == VisitedModel::Call(call));
        assert(call.name.parts.last() == call.name.parts[call.name.parts.len() - 1]);
        assert(is_nameless_aggregate(select.projection[i], e, call));
    }
    assert forall|select: SelectModel, i: int, e: ExprModel, call: CallModel|
        #![trigger names_columns(query.body, select), is_nameless_aggregate(
            select.projection[i],
            e,
            call,
        )]
        names_columns(query.body, select) && 0 <= i < select.projection.len()
            && is_nameless_aggregate(select.projection[i], e, call) implies lacks_alias(query) by {
        lemma_names_columns(query.body, select);
        let k = choose|k: int|
            0 <= k < e.visited.len() && #[trigger] e.visited[k] == VisitedModel::Call(call);
        assert(call.name.parts.last() == call.name.parts[call.name.parts.len() - 1]);
        assert(is_aggregate(e.visited[k]));
        assert(needs_alias(select.projection[i]));
        let output = output_select(query.body)->0;
        assert(output == select);
        assert(needs_alias(output.projection[i]));
    }
}

} // verus!
