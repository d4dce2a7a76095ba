//! Laws on models: a model keeps everything that its node holds, part for part.

use vstd::prelude::*;

use crate::policy::Policy;
use crate::tree::{
    arg_models, bound_model, item_models, option_models, query_models, statement_models,
    token_models, ArgModel, ArgNode, BodyModel, BodyNode, BoundNode, CallNode, ConditionModel,
    ConditionNode, ExplainOptionNode, ExprNode, FromNode, JoinConstraintModel, JoinConstraintNode,
    JoinNode, JoinOperatorModel, JoinOperatorNode, LiteralModel, LiteralNode, NameNode, QueryNode,
    QueryWalk, SelectItemModel, SelectItemNode, SelectNode, StatementModel, StatementNode,
    TableArgsNode, TableModel, TableNode, TokenModel, TokenNode, VisitedExpr, VisitedModel,
    WalkBody, WalkBodyModel,
};

verus! {

/// A policy says what its fields say.
pub proof fn law_policies_keep_their_lists(p: Policy, i: int)
    ensures
        p@.max_limit == p.max_limit,
        p@.require_aggregate_aliases == p.require_aggregate_aliases,
        p@.blocked_schema_qualifiers.len() == p.blocked_schema_qualifiers@.len(),
        0 <= i < p.blocked_schema_qualifiers@.len() ==> p@.blocked_schema_qualifiers[i]
            == p.blocked_schema_qualifiers@[i]@,
        p@.blocked_identifiers.len() == p.blocked_identifiers@.len(),
        0 <= i < p.blocked_identifiers@.len() ==> p@.blocked_identifiers[i]
            == p.blocked_identifiers@[i]@,
        p@.blocked_identifier_prefixes.len() == p.blocked_identifier_prefixes@.len(),
        0 <= i < p.blocked_identifier_prefixes@.len() ==> p@.blocked_identifier_prefixes[i]
            == p.blocked_identifier_prefixes@[i]@,
        p@.blocked_bare_identifiers.len() == p.blocked_bare_identifiers@.len(),
        0 <= i < p.blocked_bare_identifiers@.len() ==> p@.blocked_bare_identifiers[i]
            == p.blocked_bare_identifiers@[i]@,
        p@.blocked_function_identifiers.len() == p.blocked_function_identifiers@.len(),
        0 <= i < p.blocked_function_identifiers@.len() ==> p@.blocked_function_identifiers[i]
            == p.blocked_function_identifiers@[i]@,
        p@.bounded_table_functions.len() == p.bounded_table_functions@.len(),
        0 <= i < p.bounded_table_functions@.len() ==> p@.bounded_table_functions[i]
            == p.bounded_table_functions@[i]@,
        p@.safe_lateral_functions.len() == p.safe_lateral_functions@.len(),
        0 <= i < p.safe_lateral_functions@.len() ==> p@.safe_lateral_functions[i]
            == p.safe_lateral_functions@[i]@,
        p@.set_returning_functions.len() == p.set_returning_functions@.len(),
        0 <= i < p.set_returning_functions@.len() ==> p@.set_returning_functions[i]
            == p.set_returning_functions@[i]@,
{
}

/// Names, calls and expressions are kept.
pub proof fn law_expressions_are_kept(name: NameNode, call: CallNode, e: ExprNode, i: int)
    ensures
        name.model().text == name.text@,
        name.model().parts.len() == name.parts@.len(),
        0 <= i < name.parts@.len() ==> name.model().parts[i] == name.parts@[i]@,
        call.model().name == call.name.model(),
        call.model().parameters == call.parameters,
        call.model().arguments == call.arguments,
        call.model().over == call.over,
        e.model().visited.len() == e.visited@.len(),
        0 <= i < e.visited@.len() ==> e.model().visited[i] == e.visited@[i].model(),
        VisitedExpr::Subquery.model() == VisitedModel::Subquery,
        VisitedExpr::Exists.model() == VisitedModel::Exists,
        VisitedExpr::InSubquery.model() == VisitedModel::InSubquery,
        VisitedExpr::AnyOp.model() == VisitedModel::AnyOp,
        VisitedExpr::AllOp.model() == VisitedModel::AllOp,
        VisitedExpr::Call(call).model() == VisitedModel::Call(call.model()),
        VisitedExpr::Other.model() == VisitedModel::Other,
{
}

/// Arguments, items, literals and bounds are kept.
pub proof fn law_items_are_kept(
    e: ExprNode,
    args: Seq<ArgNode>,
    list: TableArgsNode,
    items: Seq<SelectItemNode>,
    bound: BoundNode,
    word: String,
    flag: bool,
    i: int,
)
    ensures
        ArgNode::Expr(e).model() == ArgModel::Expr(e.model()),
        ArgNode::QualifiedWildcard.model() == ArgModel::QualifiedWildcard,
        ArgNode::Wildcard.model() == ArgModel::Wildcard,
        arg_models(args).len() == args.len(),
        0 <= i < args.len() ==> arg_models(args)[i] == args[i].model(),
        list.model().args == arg_models(list.args@),
        list.model().settings == list.settings,
        SelectItemNode::Unnamed(e).model() == SelectItemModel::Unnamed(e.model()),
        SelectItemNode::Aliased(e).model() == SelectItemModel::Aliased(e.model()),
        SelectItemNode::QualifiedWildcard.model() == SelectItemModel::QualifiedWildcard,
        SelectItemNode::Wildcard.model() == SelectItemModel::Wildcard,
        item_models(items).len() == items.len(),
        0 <= i < items.len() ==> item_models(items)[i] == items[i].model(),
        LiteralNode::Number(word).model() == LiteralModel::Number(word@),
        LiteralNode::Boolean(flag).model() == LiteralModel::Boolean(flag),
        LiteralNode::Null.model() == LiteralModel::Null,
        LiteralNode::Identifier(word).model() == LiteralModel::Identifier(word@),
        LiteralNode::Other.model() == LiteralModel::Other,
        bound.model().literal == bound.literal.model(),
        bound.model().text == bound.text@,
        bound_model(Some(bound)) == Some(bound.model()),
        bound_model(None) is None,
{
}

/// Conditions are kept.
pub proof fn law_conditions_are_kept(c: ConditionNode)
    ensures
        match c {
            ConditionNode::Nested(inner) => c.model() == ConditionModel::Nested(
                Box::new(inner.model()),
            ),
            ConditionNode::Value { boolean, placeholder, text } => c.model()
                == (ConditionModel::Value { boolean, placeholder, text: text@ }),
            ConditionNode::Introduced { introducer, placeholder, text } => c.model()
                == (ConditionModel::Introduced {
                introducer: introducer@,
                placeholder,
                text: text@,
            }),
            ConditionNode::Typed { data_type, value } => c.model() == (ConditionModel::Typed {
                data_type: data_type@,
                value: value@,
            }),
            ConditionNode::Binary { left, operator, right, same_operands } => c.model()
                == (ConditionModel::Binary {
                left: Box::new(left.model()),
                operator,
                right: Box::new(right.model()),
                same_operands,
            }),
            ConditionNode::Other => c.model() == ConditionModel::Other,
        },
{
}

/// Joins are kept.
pub proof fn law_joins_are_kept(join: JoinNode, from: FromNode, c: ConditionNode, k: JoinConstraintNode)
    ensures
        JoinConstraintNode::On(c).model() == JoinConstraintModel::On(c.model()),
        JoinConstraintNode::Using.model() == JoinConstraintModel::Using,
        JoinConstraintNode::Natural.model() == JoinConstraintModel::Natural,
        JoinConstraintNode::Absent.model() == JoinConstraintModel::Absent,
        JoinOperatorNode::Inner(k).model() == JoinOperatorModel::Inner(k.model()),
        JoinOperatorNode::LeftOuter(k).model() == JoinOperatorModel::LeftOuter(k.model()),
        JoinOperatorNode::RightOuter(k).model() == JoinOperatorModel::RightOuter(k.model()),
        JoinOperatorNode::FullOuter(k).model() == JoinOperatorModel::FullOuter(k.model()),
        JoinOperatorNode::CrossJoin.model() == JoinOperatorModel::CrossJoin,
        JoinOperatorNode::LeftSemi(k).model() == JoinOperatorModel::LeftSemi(k.model()),
        JoinOperatorNode::RightSemi(k).model() == JoinOperatorModel::RightSemi(k.model()),
        JoinOperatorNode::LeftAnti(k).model() == JoinOperatorModel::LeftAnti(k.model()),
        JoinOperatorNode::RightAnti(k).model() == JoinOperatorModel::RightAnti(k.model()),
        JoinOperatorNode::CrossApply.model() == JoinOperatorModel::CrossApply,
        JoinOperatorNode::OuterApply.model() == JoinOperatorModel::OuterApply,
        JoinOperatorNode::AsOf(k).model() == JoinOperatorModel::AsOf(k.model()),
        join.model().relation == join.relation.model(),
        join.model().operator == join.operator.model(),
        from.model().relation == from.relation.model(),
        from.model().joins.len() == from.joins@.len(),
        forall|i: int|
            0 <= i < from.joins@.len() ==> #[trigger] from.model().joins[i]
                == from.joins@[i].model(),
{
}

/// Relations are kept.
pub proof fn law_relations_are_kept(table: TableNode)
    ensures
        match table {
            TableNode::Table { name, args } => table.model() == (TableModel::Table {
                name: name.model(),
                args: match args {
                    Some(list) => Some(list.model()),
                    None => None,
                },
            }),
            TableNode::Derived(query) => table.model() == TableModel::Derived(
                Box::new(query.model()),
            ),
            TableNode::TableFunction => table.model() == TableModel::TableFunction,
            TableNode::Function { lateral, name, arguments } => table.model()
                == (TableModel::Function {
                lateral,
                name: name.model(),
                arguments: arg_models(arguments@),
            }),
            TableNode::Unnest => table.model() == TableModel::Unnest,
            TableNode::JsonTable => table.model() == TableModel::JsonTable,
            TableNode::NestedJoin(from) => table.model() == TableModel::NestedJoin(
                Box::new(from.model()),
            ),
            TableNode::Pivot(inner) => table.model() == TableModel::Pivot(Box::new(inner.model())),
            TableNode::Unpivot(inner) => table.model() == TableModel::Unpivot(
                Box::new(inner.model()),
            ),
            TableNode::MatchRecognize(inner) => table.model() == TableModel::MatchRecognize(
                Box::new(inner.model()),
            ),
        },
{
}

/// SELECTs, bodies and queries are kept.
pub proof fn law_queries_are_kept(select: SelectNode, body: BodyNode, query: QueryNode)
    ensures
        select.model().into == select.into,
        select.model().projection == item_models(select.projection@),
        select.model().from.len() == select.from@.len(),
        forall|i: int|
            0 <= i < select.from@.len() ==> #[trigger] select.model().from[i]
                == select.from@[i].model(),
        match body {
            BodyNode::Select(s) => body.model() == BodyModel::Select(Box::new(s.model())),
            BodyNode::Query(q) => body.model() == BodyModel::Query(Box::new(q.model())),
            BodyNode::SetOperation { left, right } => body.model() == (BodyModel::SetOperation {
                left: Box::new(left.model()),
                right: Box::new(right.model()),
            }),
            BodyNode::Values => body.model() == BodyModel::Values,
            BodyNode::Table => body.model() == BodyModel::Table,
            BodyNode::Insert(kind) => body.model() == BodyModel::Insert(kind),
            BodyNode::Update(kind) => body.model() == BodyModel::Update(kind),
        },
        query.with is None <==> query.model().with is None,
        query.with matches Some(queries) ==> query.model().with->0.len() == queries@.len() && forall|
            i: int,
        |
            0 <= i < queries@.len() ==> #[trigger] query.model().with->0[i] == queries@[i].model(),
        query.model().body == query.body.model(),
        query.model().order_by == (match query.order_by {
            Some(n) => Some(n as nat),
            None => None::<nat>,
        }),
        query.model().limit == bound_model(query.limit),
        query.model().offset == bound_model(query.offset),
        query.model().fetch == query.fetch,
        query.model().locks == query.locks,
        query.model().text == query.text@,
{
}

/// Walks, statements, options and tokens are kept.
pub proof fn law_statements_are_kept(
    queries: Seq<QueryNode>,
    walk: QueryWalk,
    body: WalkBody,
    statement: StatementNode,
    statements: Seq<StatementNode>,
    option: ExplainOptionNode,
    options: Seq<ExplainOptionNode>,
    i: int,
)
    ensures
        query_models(queries).len() == queries.len(),
        0 <= i < queries.len() ==> query_models(queries)[i] == queries[i].model(),
        walk.model().query == walk.query.model(),
        walk.model().in_with == query_models(walk.in_with@),
        walk.model().body == walk.body.model(),
        walk.model().in_clauses == query_models(walk.in_clauses@),
        match body {
            WalkBody::Parenthesized(inner) => body.model() == WalkBodyModel::Parenthesized(
                Box::new(inner.model()),
            ),
            WalkBody::Nested(list) => body.model() == WalkBodyModel::Nested(query_models(list@)),
        },
        match statement {
            StatementNode::Query(w) => statement.model() == StatementModel::Query(
                Box::new(w.model()),
            ),
            StatementNode::Explain { statement: inner, analyze, options: o } => statement.model()
                == (StatementModel::Explain {
                statement: Box::new(inner.model()),
                analyze,
                options: match o {
                    Some(list) => Some(option_models(list@)),
                    None => None,
                },
            }),
            StatementNode::Other(kind) => statement.model() == StatementModel::Other(kind),
        },
        statement_models(statements).len() == statements.len(),
        0 <= i < statements.len() ==> statement_models(statements)[i] == statements[i].model(),
        option.model().name == option.name@,
        option.arg is None <==> option.model().arg is None,
        option.arg matches Some(literal) ==> option.model().arg == Some(literal.model()),
        option_models(options).len() == options.len(),
        0 <= i < options.len() ==> option_models(options)[i] == options[i].model(),
{
}

/// Tokens are kept.
pub proof fn law_tokens_are_kept(token: TokenNode, tokens: Seq<TokenNode>, i: int)
    ensures
        match token {
            TokenNode::Word { value, quoted } => token.model() == (TokenModel::Word {
                value: value@,
                quoted,
            }),
            TokenNode::SingleQuotedString => token.model() == TokenModel::SingleQuotedString,
            TokenNode::DoubleQuotedString(value) => token.model() == TokenModel::DoubleQuotedString(
                value@,
            ),
            TokenNode::UnicodeString => token.model() == TokenModel::UnicodeString,
            TokenNode::Ampersand => token.model() == TokenModel::Ampersand,
            TokenNode::Period => token.model() == TokenModel::Period,
            TokenNode::LParen => token.model() == TokenModel::LParen,
            TokenNode::Whitespace => token.model() == TokenModel::Whitespace,
            TokenNode::Other => token.model() == TokenModel::Other,
        },
        token_models(tokens).len() == tokens.len(),
        0 <= i < tokens.len() ==> token_models(tokens)[i] == tokens[i].model(),
{
}

} // verus!
