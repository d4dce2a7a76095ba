//! Cartesian products and tautological joins.

use vstd::prelude::*;

use crate::policy::{Policy, PolicyModel};
use crate::refusal::{around, or_else, prefixed, refusal};
use crate::relations::safe_lateral_join;
use crate::text::{lower, to_lower};
use crate::tree::{
    BodyModel, BodyNode, ConditionModel, ConditionNode, ConditionOperator, FromModel, FromNode,
    JoinConstraintModel, JoinConstraintNode, JoinModel, JoinNode, JoinOperatorModel,
    JoinOperatorNode, SelectModel, SelectNode, TableModel, TableNode,
};

verus! {

/// What a literal condition says, in parentheses or not: equal for two
/// literals that are equal.
pub open spec fn fingerprint(condition: ConditionModel) -> Option<Seq<char>>
    decreases condition,
{
    match condition {
        ConditionModel::Nested(inner) => fingerprint(*inner),
        ConditionModel::Value { text, .. } => Some("value:"@ + text),
        ConditionModel::Introduced { introducer, text, .. } => Some(
            "introduced:"@ + lower(introducer) + ":"@ + text,
        ),
        ConditionModel::Typed { data_type, value } => Some(
            "typed:"@ + lower(data_type) + ":"@ + value,
        ),
        ConditionModel::Binary { .. } | ConditionModel::Other => None,
    }
}

/// The condition holds of every pair of rows, as its form alone shows.
pub open spec fn tautological(condition: ConditionModel) -> bool
    decreases condition,
{
    match condition {
        ConditionModel::Nested(inner) => tautological(*inner),
        ConditionModel::Value { boolean, .. } => boolean == Some(true),
        ConditionModel::Binary { left, operator, right, same_operands } => match operator {
            ConditionOperator::And => tautological(*left) && tautological(*right),
            ConditionOperator::Or => tautological(*left) || tautological(*right),
            ConditionOperator::Eq => same_operands || (fingerprint(*left) is Some && fingerprint(
                *left,
            ) == fingerprint(*right)),
            ConditionOperator::Other => false,
        },
        ConditionModel::Introduced { .. }
        | ConditionModel::Typed { .. }
        | ConditionModel::Other => false,
    }
}

/// The constraint does not relate the rows of both sides.
pub open spec fn unbounded(constraint: JoinConstraintModel) -> bool {
    match constraint {
        JoinConstraintModel::Absent | JoinConstraintModel::Natural => true,
        JoinConstraintModel::On(condition) => tautological(condition),
        JoinConstraintModel::Using => false,
    }
}

/// The constraint of a join, if its kind takes one.
pub open spec fn constraint_of(operator: JoinOperatorModel) -> Option<JoinConstraintModel> {
    match operator {
        JoinOperatorModel::Inner(c)
        | JoinOperatorModel::LeftOuter(c)
        | JoinOperatorModel::RightOuter(c)
        | JoinOperatorModel::FullOuter(c)
        | JoinOperatorModel::LeftSemi(c)
        | JoinOperatorModel::RightSemi(c)
        | JoinOperatorModel::LeftAnti(c)
        | JoinOperatorModel::RightAnti(c)
        | JoinOperatorModel::AsOf(c) => Some(c),
        JoinOperatorModel::CrossJoin
        | JoinOperatorModel::CrossApply
        | JoinOperatorModel::OuterApply => None,
    }
}

/// The join can pair every row of one side with every row of the other.
pub open spec fn cartesian(p: PolicyModel, join: JoinModel) -> bool {
    &&& !safe_lateral_join(p, join)
    &&& match constraint_of(join.operator) {
        Some(constraint) => unbounded(constraint),
        None => true,
    }
}

/// How the refusal of a cartesian join names its shape.
pub open spec fn cartesian_shape(operator: JoinOperatorModel) -> Seq<char> {
    if operator is CrossJoin {
        "CROSS JOIN"@
    } else if operator is AsOf || constraint_of(operator) is None {
        "cartesian product"@
    } else {
        match constraint_of(operator)->0 {
            JoinConstraintModel::Absent => match operator {
                JoinOperatorModel::Inner(_) => "JOIN without ON clause"@,
                JoinOperatorModel::LeftOuter(_) => "LEFT JOIN without ON clause"@,
                JoinOperatorModel::RightOuter(_) => "RIGHT JOIN without ON clause"@,
                JoinOperatorModel::FullOuter(_) => "FULL JOIN without ON clause"@,
                _ => "cartesian product"@,
            },
            JoinConstraintModel::Natural => "NATURAL JOIN"@,
            JoinConstraintModel::On(condition) if tautological(condition) =>
                "JOIN with tautological ON condition"@,
            _ => "cartesian product"@,
        }
    }
}

/// The refusal of a cartesian join.
pub open spec fn cartesian_refused(operator: JoinOperatorModel) -> Seq<char> {
    "Potential cartesian product detected: "@ + cartesian_shape(operator)
        + ". This join shape is not allowed on this SQL surface because it can explode result cardinality. Rewrite with an explicit ON clause or another bounded relational shape."@
}

/// Why a relation that is a join in parentheses is refused, at any depth.
pub open spec fn table_cartesian_refusal(p: PolicyModel, table: TableModel) -> Option<Seq<char>>
    decreases table,
{
    match table {
        TableModel::NestedJoin(from) => or_else(
            table_cartesian_refusal(p, from.relation),
            nested_joins_refusal(p, from.joins),
        ),
        _ => None,
    }
}

/// Why the first refused one of the joins in parentheses is refused.
pub open spec fn nested_joins_refusal(p: PolicyModel, joins: Seq<JoinModel>) -> Option<Seq<char>>
    decreases joins,
{
    if joins.len() == 0 {
        None
    } else {
        or_else(
            nested_join_refusal(p, joins[0]),
            nested_joins_refusal(p, joins.subrange(1, joins.len() as int)),
        )
    }
}

/// Why one of the joins in parentheses is refused.
pub open spec fn nested_join_refusal(p: PolicyModel, join: JoinModel) -> Option<Seq<char>>
    decreases join,
{
    or_else(
        table_cartesian_refusal(p, join.relation),
        if cartesian(p, join) {
            Some("Potential cartesian product detected inside nested join."@)
        } else {
            None
        },
    )
}

/// Why a join of a SELECT is refused.
pub open spec fn join_cartesian_refusal(p: PolicyModel, join: JoinModel) -> Option<Seq<char>> {
    or_else(
        table_cartesian_refusal(p, join.relation),
        if cartesian(p, join) {
            Some(cartesian_refused(join.operator))
        } else {
            None
        },
    )
}

/// Why the first refused join of a SELECT is refused.
pub open spec fn joins_cartesian_refusal(p: PolicyModel, joins: Seq<JoinModel>) -> Option<Seq<char>>
    decreases joins.len(),
{
    if joins.len() == 0 {
        None
    } else {
        or_else(join_cartesian_refusal(p, joins[0]), joins_cartesian_refusal(p, joins.skip(1)))
    }
}

/// Why an entry of FROM is refused.
pub open spec fn from_cartesian_refusal(p: PolicyModel, from: FromModel) -> Option<Seq<char>> {
    or_else(table_cartesian_refusal(p, from.relation), joins_cartesian_refusal(p, from.joins))
}

/// Why the first refused entry of FROM is refused.
pub open spec fn froms_cartesian_refusal(p: PolicyModel, froms: Seq<FromModel>) -> Option<Seq<char>>
    decreases froms.len(),
{
    if froms.len() == 0 {
        None
    } else {
        or_else(from_cartesian_refusal(p, froms[0]), froms_cartesian_refusal(p, froms.skip(1)))
    }
}

/// Why a SELECT is refused: for a join in it, or for more than one entry in
/// FROM.
pub open spec fn select_cartesian_refusal(p: PolicyModel, select: SelectModel) -> Option<Seq<char>> {
    or_else(
        froms_cartesian_refusal(p, select.from),
        if select.from.len() > 1 {
            Some(
                "Multiple tables in FROM clause without explicit JOIN. Use explicit JOIN syntax with ON clauses instead of comma-separated tables. Example: 'FROM a JOIN b ON a.id = b.a_id' instead of 'FROM a, b WHERE a.id = b.a_id'"@,
            )
        } else {
            None
        },
    )
}

/// Why a query body is refused. A query nested in it is looked at on its own.
pub open spec fn body_cartesian_refusal(p: PolicyModel, body: BodyModel) -> Option<Seq<char>>
    decreases body,
{
    match body {
        BodyModel::Select(select) => select_cartesian_refusal(p, *select),
        BodyModel::SetOperation { left, right } => or_else(
            body_cartesian_refusal(p, *left),
            body_cartesian_refusal(p, *right),
        ),
        _ => None,
    }
}

/// What a literal condition says: equal for two literals that are equal.
pub fn literal_expr_fingerprint(expr: &ConditionNode) -> (r: Option<String>)
    ensures
        (match r {
            Some(s) => Some(s@),
            None => None,
        }) == fingerprint(expr.model()),
    decreases *expr,
{
    match expr {
        ConditionNode::Nested(inner) => literal_expr_fingerprint(inner),
        ConditionNode::Value { text, .. } => Some(prefixed("value:", text.as_str())),
        ConditionNode::Introduced { introducer, text, .. } => {
            let mut out = around("introduced:", to_lower(introducer.as_str()).as_str(), ":");
            out.append(text.as_str());
            Some(out)
        },
        ConditionNode::Typed { data_type, value } => {
            let mut out = around("typed:", to_lower(data_type.as_str()).as_str(), ":");
            out.append(value.as_str());
            Some(out)
        },
        ConditionNode::Binary { .. } | ConditionNode::Other => None,
    }
}

/// Whether the condition holds of every pair of rows, as its form alone shows.
pub fn is_tautological_join_expr(expr: &ConditionNode) -> (r: bool)
    ensures
        r == tautological(expr.model()),
    decreases *expr,
{
    match expr {
        ConditionNode::Nested(inner) => is_tautological_join_expr(inner),
        ConditionNode::Value { boolean, .. } => match boolean {
            Some(value) => *value,
            None => false,
        },
        ConditionNode::Binary { left, operator, right, same_operands } => match operator {
            ConditionOperator::And => is_tautological_join_expr(left)
                && is_tautological_join_expr(right),
            ConditionOperator::Or => is_tautological_join_expr(left)
                || is_tautological_join_expr(right),
            // `a.id = a.id` (any expression equal to itself) constrains nothing:
            // every row pair satisfies it, so the join is still a cartesian
            // product. Also catch equal literals like `1 = 1`.
            ConditionOperator::Eq => *same_operands || match (
                literal_expr_fingerprint(left),
                literal_expr_fingerprint(right),
            ) {
                (Some(lhs), Some(rhs)) => lhs == rhs,
                _ => false,
            },
            ConditionOperator::Other => false,
        },
        ConditionNode::Introduced { .. }
        | ConditionNode::Typed { .. }
        | ConditionNode::Other => false,
    }
}

/// Whether the constraint does not relate the rows of both sides.
pub fn is_unbounded_join_constraint(constraint: &JoinConstraintNode) -> (r: bool)
    ensures
        r == unbounded(constraint.model()),
{
    match constraint {
        JoinConstraintNode::Absent | JoinConstraintNode::Natural => true,
        JoinConstraintNode::On(expr) => is_tautological_join_expr(expr),
        JoinConstraintNode::Using => false,
    }
}

/// How the refusal of a cartesian join names its shape.
fn join_type(operator: &JoinOperatorNode) -> (r: &'static str)
    ensures
        r@ == cartesian_shape(operator.model()),
{
    match operator {
        JoinOperatorNode::CrossJoin => "CROSS JOIN",
        JoinOperatorNode::Inner(JoinConstraintNode::Absent) => "JOIN without ON clause",
        JoinOperatorNode::LeftOuter(JoinConstraintNode::Absent) => "LEFT JOIN without ON clause",
        JoinOperatorNode::RightOuter(JoinConstraintNode::Absent) => "RIGHT JOIN without ON clause",
        JoinOperatorNode::FullOuter(JoinConstraintNode::Absent) => "FULL JOIN without ON clause",
        JoinOperatorNode::Inner(JoinConstraintNode::Natural)
        | JoinOperatorNode::LeftOuter(JoinConstraintNode::Natural)
        | JoinOperatorNode::RightOuter(JoinConstraintNode::Natural)
        | JoinOperatorNode::FullOuter(JoinConstraintNode::Natural)
        | JoinOperatorNode::LeftSemi(JoinConstraintNode::Natural)
        | JoinOperatorNode::RightSemi(JoinConstraintNode::Natural)
        | JoinOperatorNode::LeftAnti(JoinConstraintNode::Natural)
        | JoinOperatorNode::RightAnti(JoinConstraintNode::Natural) => "NATURAL JOIN",
        JoinOperatorNode::Inner(JoinConstraintNode::On(expr))
        | JoinOperatorNode::LeftOuter(JoinConstraintNode::On(expr))
        | JoinOperatorNode::RightOuter(JoinConstraintNode::On(expr))
        | JoinOperatorNode::FullOuter(JoinConstraintNode::On(expr))
        | JoinOperatorNode::LeftSemi(JoinConstraintNode::On(expr))
        | JoinOperatorNode::RightSemi(JoinConstraintNode::On(expr))
        | JoinOperatorNode::LeftAnti(JoinConstraintNode::On(expr))
        | JoinOperatorNode::RightAnti(JoinConstraintNode::On(expr)) => {
            if is_tautological_join_expr(expr) {
                "JOIN with tautological ON condition"
            } else {
                "cartesian product"
            }
        },
        _ => "cartesian product",
    }
}

impl Policy {
    /// Whether the join can pair every row of one side with every row of the
    /// other.
    pub fn is_cartesian_join(&self, join: &JoinNode) -> (r: bool)
        ensures
            r == cartesian(self@, join.model()),
    {
        if self.is_safe_lateral_function_join(join) {
            return false;
        }
        match &join.operator {
            JoinOperatorNode::CrossJoin
            | JoinOperatorNode::CrossApply
            | JoinOperatorNode::OuterApply => true,
            JoinOperatorNode::Inner(constraint)
            | JoinOperatorNode::LeftOuter(constraint)
            | JoinOperatorNode::RightOuter(constraint)
            | JoinOperatorNode::FullOuter(constraint)
            | JoinOperatorNode::LeftSemi(constraint)
            | JoinOperatorNode::RightSemi(constraint)
            | JoinOperatorNode::LeftAnti(constraint)
            | JoinOperatorNode::RightAnti(constraint)
            | JoinOperatorNode::AsOf(constraint) => is_unbounded_join_constraint(constraint),
        }
    }

    /// Refuses cartesian joins in a relation that is a join in parentheses. A
    /// derived table is a query of its own and is looked at there.
    pub fn detect_cartesian_in_table_factor(&self, factor: &TableNode) -> (r: Result<(), String>)
        ensures
            refusal(r) == table_cartesian_refusal(self@, factor.model()),
        decreases *factor,
    {
        match factor {
            TableNode::NestedJoin(from) => {
                assert(factor.model() == TableModel::NestedJoin(Box::new(from.model())));
                self.detect_cartesian_in_table_factor(&from.relation)?;
                let ghost all = from.model().joins;
                let mut i: usize = 0;
                assert(all.skip(0) =~= all);
                while i < from.joins.len()
                    invariant
                        i <= from.joins.len(),
                        *factor == TableNode::NestedJoin(*from),
                        factor.model() == TableModel::NestedJoin(Box::new(from.model())),
                        all == from.model().joins,
                        table_cartesian_refusal(self@, from.model().relation) is None,
                        nested_joins_refusal(self@, all.skip(i as int)) == nested_joins_refusal(
                            self@,
                            all,
                        ),
                    decreases from.joins.len() - i,
                {
                    let join = &from.joins[i];
                    assert(all.skip(i as int)[0] == join.model());
                    assert(all.skip(i as int).subrange(1, all.skip(i as int).len() as int)
                        =~= all.skip(i + 1));
                    assert(decreases_to!(from.joins@ => from.joins@[i as int]));
                    assert(join.model().relation == join.relation.model());
                    assert(nested_join_refusal(self@, join.model()) == or_else(
                        table_cartesian_refusal(self@, join.relation.model()),
                        if cartesian(self@, join.model()) {
                            Some("Potential cartesian product detected inside nested join."@)
                        } else {
                            None
                        },
                    ));
                    self.detect_cartesian_in_table_factor(&join.relation)?;
                    if self.is_cartesian_join(join) {
                        return Err(
                            "Potential cartesian product detected inside nested join.".to_string(),
                        );
                    }
                    i += 1;
                }
                Ok(())
            },
            _ => Ok(()),
        }
    }

    /// Refuses cartesian joins in one entry of FROM.
    fn detect_cartesian_in_from(&self, from: &FromNode) -> (r: Result<(), String>)
        ensures
            refusal(r) == from_cartesian_refusal(self@, from.model()),
    {
        // A NestedJoin hides its joins inside the relation rather than as a
        // separate query, so its shape is still walked here.
        self.detect_cartesian_in_table_factor(&from.relation)?;
        let ghost all = from.model().joins;
        let mut i: usize = 0;
        assert(all.skip(0) =~= all);
        while i < from.joins.len()
            invariant
                i <= from.joins.len(),
                all == from.model().joins,
                table_cartesian_refusal(self@, from.model().relation) is None,
                joins_cartesian_refusal(self@, all.skip(i as int)) == joins_cartesian_refusal(
                    self@,
                    all,
                ),
            decreases from.joins.len() - i,
        {
            let join = &from.joins[i];
            assert(all.skip(i as int)[0] == join.model());
            assert(all.skip(i as int).skip(1) =~= all.skip(i + 1));
            assert(join.model().relation == join.relation.model());
            self.detect_cartesian_in_table_factor(&join.relation)?;
            if self.is_cartesian_join(join) {
                return Err(
                    around(
                        "Potential cartesian product detected: ",
                        join_type(&join.operator),
                        ". This join shape is not allowed on this SQL surface because it can explode result cardinality. Rewrite with an explicit ON clause or another bounded relational shape.",
                    ),
                );
            }
            i += 1;
        }
        Ok(())
    }

    /// Refuses cartesian joins in a SELECT, and more than one entry in FROM.
    pub fn detect_cartesian_in_select(&self, select: &SelectNode) -> (r: Result<(), String>)
        ensures
            refusal(r) == select_cartesian_refusal(self@, select.model()),
    {
        let ghost all = select.model().from;
        let mut i: usize = 0;
        assert(all.skip(0) =~= all);
        while i < select.from.len()
            invariant
                i <= select.from.len(),
                all == select.model().from,
                froms_cartesian_refusal(self@, all.skip(i as int)) == froms_cartesian_refusal(
                    self@,
                    all,
                ),
            decreases select.from.len() - i,
        {
            assert(all.skip(i as int)[0] == select.from@[i as int].model());
            assert(all.skip(i as int).skip(1) =~= all.skip(i + 1));
            self.detect_cartesian_in_from(&select.from[i])?;
            i += 1;
        }
        if select.from.len() > 1 {
            return Err(
                "Multiple tables in FROM clause without explicit JOIN. Use explicit JOIN syntax with ON clauses instead of comma-separated tables. Example: 'FROM a JOIN b ON a.id = b.a_id' instead of 'FROM a, b WHERE a.id = b.a_id'".to_string(),
            );
        }
        Ok(())
    }

    /// Refuses cartesian joins in the SELECTs of a query body.
    pub fn detect_cartesian_in_set_expr(&self, body: &BodyNode) -> (r: Result<(), String>)
        ensures
            refusal(r) == body_cartesian_refusal(self@, body.model()),
        decreases *body,
    {
        match body {
            BodyNode::Select(select) => self.detect_cartesian_in_select(select),
            BodyNode::SetOperation { left, right } => {
                self.detect_cartesian_in_set_expr(left)?;
                self.detect_cartesian_in_set_expr(right)
            },
            _ => Ok(()),
        }
    }
}

/// Parentheses constrain nothing: a condition in parentheses is tautological
/// exactly if the condition is.
pub proof fn law_parentheses_constrain_nothing(condition: ConditionModel)
    ensures
        tautological(ConditionModel::Nested(Box::new(condition))) == tautological(condition),
        fingerprint(ConditionModel::Nested(Box::new(condition))) == fingerprint(condition),
{
}

/// Any expression equal to itself constrains nothing, and so do two literals
/// that are printed alike.
pub proof fn law_self_equality_constrains_nothing(
    left: ConditionModel,
    right: ConditionModel,
    same_operands: bool,
)
    requires
        same_operands || (fingerprint(left) is Some && fingerprint(left) == fingerprint(right)),
    ensures
        tautological(
            ConditionModel::Binary {
                left: Box::new(left),
                operator: ConditionOperator::Eq,
                right: Box::new(right),
                same_operands,
            },
        ),
{
}

/// A join whose condition is tautological is a cartesian product, unless it is
/// a safe LATERAL one.
pub proof fn law_tautological_join_is_cartesian(p: PolicyModel, join: JoinModel)
    requires
        !safe_lateral_join(p, join),
        constraint_of(join.operator) matches Some(JoinConstraintModel::On(condition))
            && tautological(condition),
    ensures
        cartesian(p, join),
{
}

} // verus!
