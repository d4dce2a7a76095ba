//! Laws on joins: which of them multiply rows, wherever in a query they stand,
//! and when a condition constrains nothing.

use vstd::prelude::*;

use crate::calls::{listed_lateral, names_regexp_split};
use crate::joins::{
    body_cartesian_refusal, cartesian, cartesian_refused, cartesian_shape, fingerprint,
    tautological, unbounded,
};
use crate::laws::{body_joined, from_joined, join_joined, lemma_body_joined, table_joined};
use crate::limit_laws::{ends_in, lists};
use crate::policy::PolicyModel;
use crate::relations::safe_lateral_join;
use crate::text::{joined, lower};
use crate::tree::{
    BodyModel, ConditionModel, ConditionOperator, FromModel, JoinConstraintModel, JoinModel,
    JoinOperatorModel, NameModel, SelectModel, TableModel,
};

verus! {

/// Both conditions, out of their parentheses, are the same literal: equal values,
/// or equal strings of one introducer or one type, case of the latter aside.
pub open spec fn same_literal(a: ConditionModel, b: ConditionModel) -> bool
    decreases a, b,
{
    match (a, b) {
        (ConditionModel::Nested(inner), _) => same_literal(*inner, b),
        (_, ConditionModel::Nested(inner)) => same_literal(a, *inner),
        (
            ConditionModel::Value { text: x, .. },
            ConditionModel::Value { text: y, .. },
        ) => x == y,
        (
            ConditionModel::Introduced { introducer: i, text: x, .. },
            ConditionModel::Introduced { introducer: j, text: y, .. },
        ) => lower(i) + ":"@ + x == lower(j) + ":"@ + y,
        (
            ConditionModel::Typed { data_type: i, value: x },
            ConditionModel::Typed { data_type: j, value: y },
        ) => lower(i) + ":"@ + x == lower(j) + ":"@ + y,
        _ => false,
    }
}

/// The comparison comes out true whatever the rows are: it is the literal TRUE,
/// or compares an expression with itself or with the same literal.
pub open spec fn is_trivially_true(atom: ConditionModel) -> bool {
    match atom {
        ConditionModel::Value { boolean, .. } => boolean == Some(true),
        ConditionModel::Binary { left, operator, right, same_operands } => operator
            == ConditionOperator::Eq && (same_operands || same_literal(*left, *right)),
        _ => false,
    }
}

/// The condition holds if its comparisons come out as `outcome` says.
pub open spec fn comes_out(
    condition: ConditionModel,
    outcome: spec_fn(ConditionModel) -> bool,
) -> bool
    decreases condition,
{
    match condition {
        ConditionModel::Nested(inner) => comes_out(*inner, outcome),
        ConditionModel::Binary { left, operator: ConditionOperator::And, right, .. } => comes_out(
            *left,
            outcome,
        ) && comes_out(*right, outcome),
        ConditionModel::Binary { left, operator: ConditionOperator::Or, right, .. } => comes_out(
            *left,
            outcome,
        ) || comes_out(*right, outcome),
        _ => outcome(condition),
    }
}

/// How a literal is told from others: by its kind and what it says. Anything else
/// is not told.
pub proof fn law_fingerprints_say_what_literals_say(
    boolean: Option<bool>,
    held: bool,
    kept: Seq<char>,
    text: Seq<char>,
    inner: ConditionModel,
)
    ensures
        fingerprint(ConditionModel::Nested(Box::new(inner))) == fingerprint(inner),
        fingerprint((ConditionModel::Value { boolean, placeholder: held, text })) == Some(
            "value:"@ + text,
        ),
        fingerprint(
            (ConditionModel::Introduced { introducer: kept, placeholder: held, text }),
        ) == Some("introduced:"@ + lower(kept) + ":"@ + text),
        fingerprint((ConditionModel::Typed { data_type: kept, value: text })) == Some(
            "typed:"@ + lower(kept) + ":"@ + text,
        ),
        inner is Binary || inner is Other ==> fingerprint(inner) is None,
{
}

/// A constraint relates nothing exactly if it is absent or natural, or its
/// condition is tautological.
pub proof fn law_constraints(condition: ConditionModel)
    ensures
        unbounded(JoinConstraintModel::Absent),
        unbounded(JoinConstraintModel::Natural),
        !unbounded(JoinConstraintModel::Using),
        unbounded(JoinConstraintModel::On(condition)) == tautological(condition),
{
}

/// Fingerprints are equal exactly for the same literals.
pub proof fn law_fingerprints(a: ConditionModel, b: ConditionModel)
    ensures
        fingerprint(a) is Some && fingerprint(a) == fingerprint(b) <==> same_literal(a, b),
    decreases a, b,
{
    match (a, b) {
        (ConditionModel::Nested(inner), _) => {
            law_fingerprints(*inner, b);
        },
        (_, ConditionModel::Nested(inner)) => {
            law_fingerprints(a, *inner);
        },
        _ => {
            reveal_strlit("value:");
            reveal_strlit("introduced:");
            reveal_strlit("typed:");
            if let (Some(x), Some(y)) = (fingerprint(a), fingerprint(b)) {
                if x == y {
                    assert(x[0] == y[0]);
                }
                match (a, b) {
                    (
                        ConditionModel::Value { text: s, .. },
                        ConditionModel::Value { text: t, .. },
                    ) => {
                        if x == y {
                            assert(s =~= x.skip(6));
                            assert(t =~= y.skip(6));
                        }
                    },
                    (
                        ConditionModel::Introduced { introducer: i, text: s, .. },
                        ConditionModel::Introduced { introducer: j, text: t, .. },
                    ) => {
                        assert(lower(i) + ":"@ + s =~= x.skip(11));
                        assert(lower(j) + ":"@ + t =~= y.skip(11));
                        assert(x =~= "introduced:"@ + (lower(i) + ":"@ + s));
                        assert(y =~= "introduced:"@ + (lower(j) + ":"@ + t));
                    },
                    (
                        ConditionModel::Typed { data_type: i, value: s },
                        ConditionModel::Typed { data_type: j, value: t },
                    ) => {
                        assert(lower(i) + ":"@ + s =~= x.skip(6));
                        assert(lower(j) + ":"@ + t =~= y.skip(6));
                        assert(x =~= "typed:"@ + (lower(i) + ":"@ + s));
                        assert(y =~= "typed:"@ + (lower(j) + ":"@ + t));
                    },
                    _ => {},
                }
            }
        },
    }
}

/// A condition that counts as tautological holds however its comparisons come
/// out, as long as the trivial ones come out true.
pub proof fn law_tautologies_always_hold(
    condition: ConditionModel,
    outcome: spec_fn(ConditionModel) -> bool,
)
    requires
        tautological(condition),
        forall|atom: ConditionModel| is_trivially_true(atom) ==> #[trigger] outcome(atom),
    ensures
        comes_out(condition, outcome),
    decreases condition,
{
    match condition {
        ConditionModel::Nested(inner) => {
            law_tautologies_always_hold(*inner, outcome);
        },
        ConditionModel::Binary { left, operator, right, .. } => match operator {
            ConditionOperator::And => {
                law_tautologies_always_hold(*left, outcome);
                law_tautologies_always_hold(*right, outcome);
            },
            ConditionOperator::Or => {
                if tautological(*left) {
                    law_tautologies_always_hold(*left, outcome);
                } else {
                    law_tautologies_always_hold(*right, outcome);
                }
            },
            _ => {
                law_fingerprints(*left, *right);
                assert(is_trivially_true(condition));
            },
        },
        _ => {
            assert(is_trivially_true(condition));
        },
    }
}

/// Any other condition can fail: it does where only the trivial comparisons come
/// out true.
pub proof fn law_other_conditions_can_fail(condition: ConditionModel)
    requires
        !tautological(condition),
    ensures
        !comes_out(condition, |atom: ConditionModel| is_trivially_true(atom)),
    decreases condition,
{
    match condition {
        ConditionModel::Nested(inner) => {
            law_other_conditions_can_fail(*inner);
        },
        ConditionModel::Binary { left, operator, right, .. } => match operator {
            ConditionOperator::And => {
                if !tautological(*left) {
                    law_other_conditions_can_fail(*left);
                } else {
                    law_other_conditions_can_fail(*right);
                }
            },
            ConditionOperator::Or => {
                law_other_conditions_can_fail(*left);
                law_other_conditions_can_fail(*right);
            },
            _ => {
                law_fingerprints(*left, *right);
            },
        },
        _ => {},
    }
}

/// The relation is a call of the function of that name, at the right of a join:
/// in the form of a table, or after LATERAL.
pub open spec fn is_lateral_call(table: TableModel, name: NameModel) -> bool {
    ||| table matches TableModel::Table { name: n, args } && n == name && args is Some
    ||| table matches TableModel::Function { name: n, lateral, .. } && n == name && lateral
}

/// The relation may stand at the right of a CROSS JOIN: a call of
/// `regexp_split_to_table`, or of a function that the policy lists as safe there.
pub open spec fn may_be_crossed(p: PolicyModel, table: TableModel) -> bool {
    exists|name: NameModel| #[trigger]
        is_lateral_call(table, name) && (ends_in(name, "regexp_split_to_table"@) || lists(
            p.safe_lateral_functions,
            name,
        ))
}

/// The operator joins under that constraint.
pub open spec fn joins_under(operator: JoinOperatorModel, constraint: JoinConstraintModel) -> bool {
    ||| operator == JoinOperatorModel::Inner(constraint)
    ||| operator == JoinOperatorModel::LeftOuter(constraint)
    ||| operator == JoinOperatorModel::RightOuter(constraint)
    ||| operator == JoinOperatorModel::FullOuter(constraint)
    ||| operator == JoinOperatorModel::LeftSemi(constraint)
    ||| operator == JoinOperatorModel::RightSemi(constraint)
    ||| operator == JoinOperatorModel::LeftAnti(constraint)
    ||| operator == JoinOperatorModel::RightAnti(constraint)
    ||| operator == JoinOperatorModel::AsOf(constraint)
}

/// The join multiplies rows: it crosses what may not be crossed, applies, joins
/// under no constraint or a natural one, or under a condition that always holds.
pub open spec fn multiplies(p: PolicyModel, join: JoinModel) -> bool {
    ||| join.operator == JoinOperatorModel::CrossJoin && !may_be_crossed(p, join.relation)
    ||| join.operator == JoinOperatorModel::CrossApply
    ||| join.operator == JoinOperatorModel::OuterApply
    ||| joins_under(join.operator, JoinConstraintModel::Absent)
    ||| joins_under(join.operator, JoinConstraintModel::Natural)
    ||| exists|c: ConditionModel| #[trigger]
        joins_under(join.operator, JoinConstraintModel::On(c)) && comes_out(
            c,
            |atom: ConditionModel| is_trivially_true(atom),
        )
}

/// What may stand at the right of a CROSS JOIN.
pub proof fn law_crossing(p: PolicyModel, join: JoinModel)
    ensures
        safe_lateral_join(p, join) <==> join.operator == JoinOperatorModel::CrossJoin
            && may_be_crossed(p, join.relation),
{
    match join.relation {
        TableModel::Table { name, args } => {
            lemma_lateral_names(p, name);
            if args is Some {
                assert(is_lateral_call(join.relation, name));
            }
        },
        TableModel::Function { name, lateral, .. } => {
            lemma_lateral_names(p, name);
            if lateral {
                assert(is_lateral_call(join.relation, name));
            }
        },
        _ => {},
    }
}

/// Which names may be called at the right of a CROSS JOIN.
proof fn lemma_lateral_names(p: PolicyModel, name: NameModel)
    ensures
        names_regexp_split(name) <==> ends_in(name, "regexp_split_to_table"@),
        listed_lateral(p, name) <==> lists(p.safe_lateral_functions, name),
{
    let list = p.safe_lateral_functions;
    let dotted = joined(name.parts.map_values(|part: Seq<char>| lower(part)), "."@);
    if list.contains(dotted) {
        let j = choose|j: int| 0 <= j < list.len() && list[j] == dotted;
        assert(list[j] == dotted);
    }
    if name.parts.len() > 0 {
        assert(name.parts.last() == name.parts[name.parts.len() - 1]);
    }
}

/// A join is refused as a product exactly if it multiplies rows.
pub proof fn law_products_are_what_multiplies(p: PolicyModel, join: JoinModel)
    ensures
        cartesian(p, join) <==> multiplies(p, join),
{
    law_crossing(p, join);
    let trivial = |atom: ConditionModel| is_trivially_true(atom);
    match join.operator {
        JoinOperatorModel::Inner(c)
        | JoinOperatorModel::LeftOuter(c)
        | JoinOperatorModel::RightOuter(c)
        | JoinOperatorModel::FullOuter(c)
        | JoinOperatorModel::LeftSemi(c)
        | JoinOperatorModel::RightSemi(c)
        | JoinOperatorModel::LeftAnti(c)
        | JoinOperatorModel::RightAnti(c)
        | JoinOperatorModel::AsOf(c) => {
            assert(joins_under(join.operator, c));
            if let JoinConstraintModel::On(condition) = c {
                assert(joins_under(join.operator, JoinConstraintModel::On(condition)));
                if tautological(condition) {
                    law_tautologies_always_hold(condition, trivial);
                } else {
                    law_other_conditions_can_fail(condition);
                }
            }
        },
        _ => {},
    }
}

/// A CROSS JOIN with anything but a call of a function, be it a plain table, a
/// derived table, a join in parentheses or a pivot, is a product under every
/// policy.
pub proof fn law_crossing_what_is_no_call_is_a_product(p: PolicyModel, join: JoinModel)
    requires
        join.operator == JoinOperatorModel::CrossJoin,
        !(join.relation is Function),
        !(join.relation matches TableModel::Table { args, .. } && args is Some),
    ensures
        cartesian(p, join),
{
    law_products_are_what_multiplies(p, join);
    assert(forall|name: NameModel| !#[trigger] is_lateral_call(join.relation, name));
}

/// The join stands in the relation, which is a join in parentheses.
pub open spec fn join_in_table(table: TableModel, join: JoinModel) -> bool
    decreases table,
{
    match table {
        TableModel::NestedJoin(from) => join_in_from(*from, join),
        _ => false,
    }
}

/// The join stands in the relation that another join brings.
pub open spec fn join_in_side(side: JoinModel, join: JoinModel) -> bool
    decreases side,
{
    join_in_table(side.relation, join)
}

/// The join stands in the entry of FROM.
pub open spec fn join_in_from(from: FromModel, join: JoinModel) -> bool
    decreases from,
{
    join_in_table(from.relation, join) || exists|k: int|
        0 <= k < from.joins.len() && (#[trigger] from.joins[k] == join || join_in_side(
            from.joins[k],
            join,
        ))
}

/// The SELECT stands in the body: it is the body, or that of an operand.
pub open spec fn select_in_body(body: BodyModel, select: SelectModel) -> bool
    decreases body,
{
    match body {
        BodyModel::Select(s) => *s == select,
        BodyModel::SetOperation { left, right } => select_in_body(*left, select) || select_in_body(
            *right,
            select,
        ),
        _ => false,
    }
}

/// No join of the entry of FROM is a product exactly if none that stands in it
/// multiplies.
proof fn lemma_from_products(p: PolicyModel, from: FromModel)
    ensures
        from_joined(p, from) <==> forall|join: JoinModel| #[trigger]
            join_in_from(from, join) ==> !multiplies(p, join),
    decreases from,
{
    lemma_table_products(p, from.relation);
    assert forall|k: int| 0 <= k < from.joins.len() implies (join_joined(p, #[trigger] from.joins[k])
        <==> !multiplies(p, from.joins[k]) && forall|join: JoinModel| #[trigger]
        join_in_side(from.joins[k], join) ==> !multiplies(p, join)) by {
        assert(decreases_to!(from => from.joins));
        assert(decreases_to!(from.joins => from.joins[k]));
        lemma_side_products(p, from.joins[k]);
        law_products_are_what_multiplies(p, from.joins[k]);
    }
    if from_joined(p, from) {
        assert forall|join: JoinModel| #[trigger] join_in_from(from, join) implies !multiplies(
            p,
            join,
        ) by {
            if !join_in_table(from.relation, join) {
                let k = choose|k: int|
                    0 <= k < from.joins.len() && (#[trigger] from.joins[k] == join || join_in_side(
                        from.joins[k],
                        join,
                    ));
                assert(join_joined(p, from.joins[k]));
            }
        }
    }
    if forall|join: JoinModel| #[trigger] join_in_from(from, join) ==> !multiplies(p, join) {
        assert forall|join: JoinModel| #[trigger] join_in_table(from.relation, join) implies
            !multiplies(p, join) by {
            assert(join_in_from(from, join));
        }
        assert forall|k: int| 0 <= k < from.joins.len() implies join_joined(
            p,
            #[trigger] from.joins[k],
        ) by {
            assert(join_in_from(from, from.joins[k]));
            assert forall|join: JoinModel| #[trigger]
                join_in_side(from.joins[k], join) implies !multiplies(p, join) by {
                assert(join_in_from(from, join));
            }
        }
    }
}

/// No join in the relation of a join is a product exactly if none multiplies.
proof fn lemma_side_products(p: PolicyModel, side: JoinModel)
    ensures
        table_joined(p, side.relation) <==> forall|join: JoinModel| #[trigger]
            join_in_side(side, join) ==> !multiplies(p, join),
    decreases side,
{
    lemma_table_products(p, side.relation);
    assert forall|join: JoinModel| join_in_table(side.relation, join) == #[trigger] join_in_side(
        side,
        join,
    ) by {}
    if forall|join: JoinModel| #[trigger] join_in_side(side, join) ==> !multiplies(p, join) {
        assert forall|join: JoinModel| #[trigger] join_in_table(side.relation, join) implies
            !multiplies(p, join) by {
            assert(join_in_side(side, join));
        }
    }
}

/// No join in the relation is a product exactly if none multiplies.
proof fn lemma_table_products(p: PolicyModel, table: TableModel)
    ensures
        table_joined(p, table) <==> forall|join: JoinModel| #[trigger]
            join_in_table(table, join) ==> !multiplies(p, join),
    decreases table,
{
    if let TableModel::NestedJoin(from) = table {
        lemma_from_products(p, *from);
        assert forall|join: JoinModel| join_in_from(*from, join) == #[trigger] join_in_table(
            table,
            join,
        ) by {}
        if forall|join: JoinModel| #[trigger] join_in_table(table, join) ==> !multiplies(p, join) {
            assert forall|join: JoinModel| #[trigger] join_in_from(*from, join) implies !multiplies(
                p,
                join,
            ) by {
                assert(join_in_table(table, join));
            }
        }
    }
}

/// The SELECT reads one relation at most, and none of the joins that stand in it
/// multiplies rows.
pub open spec fn select_multiplies_nothing(p: PolicyModel, select: SelectModel) -> bool {
    &&& select.from.len() <= 1
    &&& forall|i: int, join: JoinModel|
        0 <= i < select.from.len() && #[trigger] join_in_from(select.from[i], join) ==> !multiplies(
            p,
            join,
        )
}

/// The join gate passes a query body exactly if every SELECT in it reads one
/// relation at most, and no join in it, in parentheses or not, multiplies rows.
pub proof fn law_joins_pass_exactly(p: PolicyModel, body: BodyModel)
    ensures
        body_cartesian_refusal(p, body) is None <==> forall|select: SelectModel| #[trigger]
            select_in_body(body, select) ==> select_multiplies_nothing(p, select),
    decreases body,
{
    lemma_body_joined(p, body);
    match body {
        BodyModel::Select(boxed) => {
            let select = *boxed;
            assert(select_in_body(body, select));
            assert forall|i: int| 0 <= i < select.from.len() implies (from_joined(
                p,
                #[trigger] select.from[i],
            ) <==> forall|join: JoinModel| #[trigger]
                join_in_from(select.from[i], join) ==> !multiplies(p, join)) by {
                lemma_from_products(p, select.from[i]);
            }
            if select_multiplies_nothing(p, select) {
                assert forall|i: int| 0 <= i < select.from.len() implies from_joined(
                    p,
                    #[trigger] select.from[i],
                ) by {}
            }
            if body_joined(p, body) {
                assert forall|i: int, join: JoinModel|
                    0 <= i < select.from.len() && #[trigger] join_in_from(
                        select.from[i],
                        join,
                    ) implies !multiplies(p, join) by {
                    assert(from_joined(p, select.from[i]));
                }
            }
        },
        BodyModel::SetOperation { left, right } => {
            law_joins_pass_exactly(p, *left);
            law_joins_pass_exactly(p, *right);
            lemma_body_joined(p, *left);
            lemma_body_joined(p, *right);
            if body_joined(p, body) {
                assert forall|select: SelectModel| #[trigger]
                    select_in_body(body, select) implies select_multiplies_nothing(p, select) by {
                    if !select_in_body(*left, select) {
                        assert(select_in_body(*right, select));
                    }
                }
            }
            if forall|select: SelectModel| #[trigger]
                select_in_body(body, select) ==> select_multiplies_nothing(p, select) {
                assert forall|select: SelectModel| #[trigger]
                    select_in_body(*left, select) implies select_multiplies_nothing(p, select) by {
                    assert(select_in_body(body, select));
                }
                assert forall|select: SelectModel| #[trigger]
                    select_in_body(*right, select) implies select_multiplies_nothing(p, select) by {
                    assert(select_in_body(body, select));
                }
            }
        },
        _ => {},
    }
}

/// What is said of a product names its shape.
pub proof fn law_products_are_named(operator: JoinOperatorModel, c: JoinConstraintModel)
    ensures
        cartesian_refused(operator) == "Potential cartesian product detected: "@ + cartesian_shape(
            operator,
        )
            + ". This join shape is not allowed on this SQL surface because it can explode result cardinality. Rewrite with an explicit ON clause or another bounded relational shape."@,
        cartesian_shape(JoinOperatorModel::CrossJoin) == "CROSS JOIN"@,
        cartesian_shape(JoinOperatorModel::CrossApply) == "cartesian product"@,
        cartesian_shape(JoinOperatorModel::OuterApply) == "cartesian product"@,
        cartesian_shape(JoinOperatorModel::AsOf(c)) == "cartesian product"@,
        cartesian_shape(JoinOperatorModel::Inner(JoinConstraintModel::Absent))
            == "JOIN without ON clause"@,
        cartesian_shape(JoinOperatorModel::LeftOuter(JoinConstraintModel::Absent))
            == "LEFT JOIN without ON clause"@,
        cartesian_shape(JoinOperatorModel::RightOuter(JoinConstraintModel::Absent))
            == "RIGHT JOIN without ON clause"@,
        cartesian_shape(JoinOperatorModel::FullOuter(JoinConstraintModel::Absent))
            == "FULL JOIN without ON clause"@,
        cartesian_shape(JoinOperatorModel::LeftSemi(JoinConstraintModel::Absent))
            == "cartesian product"@,
        cartesian_shape(JoinOperatorModel::RightSemi(JoinConstraintModel::Absent))
            == "cartesian product"@,
        cartesian_shape(JoinOperatorModel::LeftAnti(JoinConstraintModel::Absent))
            == "cartesian product"@,
        cartesian_shape(JoinOperatorModel::RightAnti(JoinConstraintModel::Absent))
            == "cartesian product"@,
        joins_under(operator, JoinConstraintModel::Natural) && !(operator is AsOf)
            ==> cartesian_shape(operator) == "NATURAL JOIN"@,
        c matches JoinConstraintModel::On(condition) && tautological(condition) && joins_under(
            operator,
            c,
        ) && !(operator is AsOf) ==> cartesian_shape(operator)
            == "JOIN with tautological ON condition"@,
        joins_under(operator, JoinConstraintModel::Using) ==> cartesian_shape(operator)
            == "cartesian product"@,
        c matches JoinConstraintModel::On(condition) && !tautological(condition) && joins_under(
            operator,
            c,
        ) ==> cartesian_shape(operator) == "cartesian product"@,
{
}

} // verus!
