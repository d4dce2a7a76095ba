//! From the parser's tree to the tree that the gates read.

use sqlparser::ast;
use sqlparser::tokenizer::{Token, TokenWithLocation};
use vstd::prelude::*;

use crate::gates::{complete, statement_complete, walked, walked_in_body};
use crate::parse_error::{ParserError, ParserErrorModel};
use crate::sql::{
    arg_model, arg_parts, args_model, arguments_kind, blunt, blunted, body_model, body_parts,
    bound_of, condition_model, condition_parts, constraint_model, constraint_parts, explained,
    expr_model, expr_text, expressions_of, from_model, from_parts, is_blunted, item_model,
    item_parts, join_model, kind_of_statement, literal_parts, located, located_models,
    located_token, name_parts, operator_kind, operator_model, operator_parts, option_model,
    parse_sql, parse_tokens, parsed, parsed_tokens, queries_model, query_model, query_parts,
    same_expression, statement_kind, statement_model, statement_parts, subquery_of, table_model,
    table_parts, token_in, token_model, token_parts, tokenize_located, tokenize_sql, tokens_of,
    visited_expressions, visited_model, visited_parts, walk_body_model, walk_body_parts, walk_model,
    walk_parts, ArgParts, BodyParts, ConditionParts, ConstraintParts, ItemParts, OperatorParts,
    StatementParts, TableParts, VisitedParts, WalkBodyParts,
};
use crate::tokens::{has_nameless, has_nameless_grantor, is_nameless, nameless_at};
use crate::tree::{
    arg_models, bound_model, item_models, option_models, query_models, stands_in_body,
    stands_in_query, stands_in_with, statement_models, token_models, ArgNode, BodyNode, BoundNode,
    CallNode, ConditionNode, ExplainOptionNode, ExprNode, FromNode, JoinConstraintNode, JoinNode,
    JoinOperatorNode, QueryModel, QueryNode, QueryWalk, SelectItemNode, SelectModel, SelectNode,
    StatementKind, StatementModel, StatementNode, TableArgsNode, TableNode, TokenModel, TokenNode,
    VisitedExpr, WalkBody,
};
use crate::validate::kind_of;

verus! {

/// Reads one visited expression.
fn read_visited(expr: &ast::Expr) -> (r: VisitedExpr)
    ensures
        r.model() == visited_model(*expr),
{
    match visited_parts(expr) {
        VisitedParts::Subquery(_) => VisitedExpr::Subquery,
        VisitedParts::Exists(_) => VisitedExpr::Exists,
        VisitedParts::InSubquery(_) => VisitedExpr::InSubquery,
        VisitedParts::AnyOp => VisitedExpr::AnyOp,
        VisitedParts::AllOp => VisitedExpr::AllOp,
        VisitedParts::Call(name, parameters, arguments, over) => VisitedExpr::Call(
            CallNode {
                name: name_parts(name),
                parameters: arguments_kind(parameters),
                arguments: arguments_kind(arguments),
                over,
            },
        ),
        VisitedParts::Other => VisitedExpr::Other,
    }
}

/// Reads every expression in an expression, itself first.
pub(crate) fn read_expr(expr: &ast::Expr) -> (r: ExprNode)
    ensures
        r.model() == expr_model(*expr),
        r.model().visited.len() > 0,
        r.model().visited[0] == visited_model(*expr),
{
    let all = visited_expressions(expr);
    let mut visited: Vec<VisitedExpr> = Vec::new();
    let mut i: usize = 0;
    while i < all.len()
        invariant
            i <= all.len(),
            visited.len() == i,
            forall|j: int| 0 <= j < i ==> (#[trigger] visited@[j]).model() == visited_model(all@[j]),
        decreases all.len() - i,
    {
        visited.push(read_visited(&all[i]));
        i += 1;
    }
    let r = ExprNode { visited };
    assert(r.model().visited =~= expr_model(*expr).visited);
    r
}

/// Reads an expression as a join condition.
pub(crate) fn read_condition(expr: &ast::Expr) -> (r: ConditionNode)
    ensures
        r.model() == condition_model(*expr),
    decreases condition_model(*expr),
{
    let ghost m = condition_model(*expr);
    match condition_parts(expr) {
        ConditionParts::Nested(inner) => {
            assert(decreases_to!(m => *m->Nested_0));
            ConditionNode::Nested(Box::new(read_condition(inner)))
        },
        ConditionParts::Boolean(value, text) => ConditionNode::Value {
            boolean: Some(value),
            placeholder: false,
            text,
        },
        ConditionParts::Placeholder(held) => ConditionNode::Value {
            boolean: None,
            placeholder: true,
            text: held.clone(),
        },
        ConditionParts::Value(text) => ConditionNode::Value {
            boolean: None,
            placeholder: false,
            text,
        },
        ConditionParts::IntroducedPlaceholder(introducer, held) => ConditionNode::Introduced {
            introducer: introducer.clone(),
            placeholder: true,
            text: held.clone(),
        },
        ConditionParts::Introduced(introducer, text) => ConditionNode::Introduced {
            introducer: introducer.clone(),
            placeholder: false,
            text,
        },
        ConditionParts::Typed(data_type, value) => ConditionNode::Typed {
            data_type,
            value: value.clone(),
        },
        ConditionParts::Binary(left, operator, right) => {
            assert(decreases_to!(m => *m->left));
            assert(decreases_to!(m => *m->right));
            ConditionNode::Binary {
                left: Box::new(read_condition(left)),
                operator: operator_kind(operator),
                right: Box::new(read_condition(right)),
                same_operands: same_expression(left, right),
            }
        },
        ConditionParts::Other => ConditionNode::Other,
    }
}

/// Reads what constrains a join.
fn read_constraint(constraint: &ast::JoinConstraint) -> (r: JoinConstraintNode)
    ensures
        r.model() == constraint_model(*constraint),
{
    match constraint_parts(constraint) {
        ConstraintParts::On(expr) => JoinConstraintNode::On(read_condition(expr)),
        ConstraintParts::Using => JoinConstraintNode::Using,
        ConstraintParts::Natural => JoinConstraintNode::Natural,
        ConstraintParts::Absent => JoinConstraintNode::Absent,
    }
}

/// Reads the kind of a join.
fn read_operator(operator: &ast::JoinOperator) -> (r: JoinOperatorNode)
    ensures
        r.model() == operator_model(*operator),
{
    match operator_parts(operator) {
        OperatorParts::Inner(c) => JoinOperatorNode::Inner(read_constraint(c)),
        OperatorParts::LeftOuter(c) => JoinOperatorNode::LeftOuter(read_constraint(c)),
        OperatorParts::RightOuter(c) => JoinOperatorNode::RightOuter(read_constraint(c)),
        OperatorParts::FullOuter(c) => JoinOperatorNode::FullOuter(read_constraint(c)),
        OperatorParts::CrossJoin => JoinOperatorNode::CrossJoin,
        OperatorParts::LeftSemi(c) => JoinOperatorNode::LeftSemi(read_constraint(c)),
        OperatorParts::RightSemi(c) => JoinOperatorNode::RightSemi(read_constraint(c)),
        OperatorParts::LeftAnti(c) => JoinOperatorNode::LeftAnti(read_constraint(c)),
        OperatorParts::RightAnti(c) => JoinOperatorNode::RightAnti(read_constraint(c)),
        OperatorParts::CrossApply => JoinOperatorNode::CrossApply,
        OperatorParts::OuterApply => JoinOperatorNode::OuterApply,
        OperatorParts::AsOf(c) => JoinOperatorNode::AsOf(read_constraint(c)),
    }
}

/// Reads the arguments of a table-valued function.
fn read_args(args: &Vec<ast::FunctionArg>) -> (r: Vec<ArgNode>)
    ensures
        arg_models(r@) == args_model(args@),
{
    let mut out: Vec<ArgNode> = Vec::new();
    let mut i: usize = 0;
    while i < args.len()
        invariant
            i <= args.len(),
            out.len() == i,
            forall|j: int| 0 <= j < i ==> (#[trigger] out@[j]).model() == arg_model(args@[j]),
        decreases args.len() - i,
    {
        let arg = match arg_parts(&args[i]) {
            ArgParts::Expr(expr) => ArgNode::Expr(read_expr(expr)),
            ArgParts::QualifiedWildcard => ArgNode::QualifiedWildcard,
            ArgParts::Wildcard => ArgNode::Wildcard,
        };
        out.push(arg);
        i += 1;
    }
    assert(arg_models(out@) =~= args_model(args@));
    out
}

/// Reads a SELECT list.
fn read_items(items: &Vec<ast::SelectItem>) -> (r: Vec<SelectItemNode>)
    ensures
        item_models(r@) == items@.map_values(|i: ast::SelectItem| item_model(i)),
{
    let mut out: Vec<SelectItemNode> = Vec::new();
    let mut i: usize = 0;
    while i < items.len()
        invariant
            i <= items.len(),
            out.len() == i,
            forall|j: int| 0 <= j < i ==> (#[trigger] out@[j]).model() == item_model(items@[j]),
        decreases items.len() - i,
    {
        let item = match item_parts(&items[i]) {
            ItemParts::Unnamed(expr) => SelectItemNode::Unnamed(read_expr(expr)),
            ItemParts::Aliased(expr) => SelectItemNode::Aliased(read_expr(expr)),
            ItemParts::QualifiedWildcard => SelectItemNode::QualifiedWildcard,
            ItemParts::Wildcard => SelectItemNode::Wildcard,
        };
        out.push(item);
        i += 1;
    }
    assert(item_models(out@) =~= items@.map_values(|i: ast::SelectItem| item_model(i)));
    out
}

/// Reads the operand of LIMIT or OFFSET.
fn read_bound(operand: Option<&ast::Expr>) -> (r: Option<BoundNode>)
    ensures
        bound_model(r) == bound_of(operand),
{
    match operand {
        Some(expr) => Some(BoundNode { literal: literal_parts(expr), text: expr_text(expr) }),
        None => None,
    }
}

/// Reads a relation.
pub(crate) fn read_table(table: &ast::TableFactor) -> (r: TableNode)
    ensures
        r.model() == table_model(*table),
    decreases table_model(*table),
{
    let ghost m = table_model(*table);
    match table_parts(table) {
        TableParts::Table(name, args) => TableNode::Table {
            name: name_parts(name),
            args: match args {
                Some(list) => Some(TableArgsNode { args: read_args(list.0), settings: list.1 }),
                None => None,
            },
        },
        TableParts::Derived(query) => {
            assert(decreases_to!(m => *m->Derived_0));
            TableNode::Derived(Box::new(read_query(query)))
        },
        TableParts::TableFunction => TableNode::TableFunction,
        TableParts::Function(lateral, name, args) => TableNode::Function {
            lateral,
            name: name_parts(name),
            arguments: read_args(args),
        },
        TableParts::Unnest => TableNode::Unnest,
        TableParts::JsonTable => TableNode::JsonTable,
        TableParts::NestedJoin(from) => {
            assert(decreases_to!(m => *m->NestedJoin_0));
            TableNode::NestedJoin(Box::new(read_from(from)))
        },
        TableParts::Pivot(inner) => {
            assert(decreases_to!(m => *m->Pivot_0));
            TableNode::Pivot(Box::new(read_table(inner)))
        },
        TableParts::Unpivot(inner) => {
            assert(decreases_to!(m => *m->Unpivot_0));
            TableNode::Unpivot(Box::new(read_table(inner)))
        },
        TableParts::MatchRecognize(inner) => {
            assert(decreases_to!(m => *m->MatchRecognize_0));
            TableNode::MatchRecognize(Box::new(read_table(inner)))
        },
    }
}

/// Reads an entry of FROM.
pub(crate) fn read_from(from: &ast::TableWithJoins) -> (r: FromNode)
    ensures
        r.model() == from_model(*from),
    decreases from_model(*from),
{
    let ghost m = from_model(*from);
    let parts = from_parts(from);
    assert(decreases_to!(m => m.relation));
    let relation = read_table(parts.relation);
    let mut joins: Vec<JoinNode> = Vec::new();
    let mut i: usize = 0;
    while i < parts.joins.len()
        invariant
            i <= parts.joins.len(),
            joins.len() == i,
            m == from_model(*from),
            m.joins.len() == parts.joins.len(),
            forall|j: int|
                0 <= j < m.joins.len() ==> #[trigger] m.joins[j] == join_model(
                    parts.joins@[j],
                ),
            forall|j: int| 0 <= j < i ==> (#[trigger] joins@[j]).model() == m.joins[j],
        decreases parts.joins.len() - i,
    {
        let (joined, operator) = parts.joins[i];
        assert(decreases_to!(m => m.joins));
        assert(decreases_to!(m.joins => m.joins[i as int]));
        assert(decreases_to!(m.joins[i as int] => m.joins[i as int].relation));
        let join = JoinNode { relation: read_table(joined), operator: read_operator(operator) };
        assert(join.model() == m.joins[i as int]);
        joins.push(join);
        i += 1;
    }
    let r = FromNode { relation, joins };
    assert(r.model().joins =~= m.joins);
    r
}

/// Reads a SELECT.
fn read_select(
    into: bool,
    projection: &Vec<ast::SelectItem>,
    from: &Vec<ast::TableWithJoins>,
    Ghost(m): Ghost<SelectModel>,
) -> (r: SelectNode)
    requires
        m.into == into,
        m.projection == projection@.map_values(|i: ast::SelectItem| item_model(i)),
        m.from == from@.map_values(|f: ast::TableWithJoins| from_model(f)),
    ensures
        r.model() == m,
    decreases m,
{
    let mut out: Vec<FromNode> = Vec::new();
    let mut i: usize = 0;
    while i < from.len()
        invariant
            i <= from.len(),
            out.len() == i,
            m.from == from@.map_values(|f: ast::TableWithJoins| from_model(f)),
            forall|j: int| 0 <= j < i ==> (#[trigger] out@[j]).model() == from_model(from@[j]),
        decreases from.len() - i,
    {
        assert(m.from[i as int] == from_model(from@[i as int]));
        assert(decreases_to!(m => m.from));
        assert(decreases_to!(m.from => m.from[i as int]));
        out.push(read_from(&from[i]));
        i += 1;
    }
    let r = SelectNode { into, projection: read_items(projection), from: out };
    assert(r.model().from =~= m.from);
    r
}

/// Reads a query body.
pub(crate) fn read_body(body: &ast::SetExpr) -> (r: BodyNode)
    ensures
        r.model() == body_model(*body),
    decreases body_model(*body),
{
    let ghost m = body_model(*body);
    match body_parts(body) {
        BodyParts::Select(into, projection, from) => {
            assert(decreases_to!(m => *m->Select_0));
            BodyNode::Select(
                Box::new(read_select(into, projection, from, Ghost(*m->Select_0))),
            )
        },
        BodyParts::Query(query) => {
            assert(decreases_to!(m => *m->Query_0));
            BodyNode::Query(Box::new(read_query(query)))
        },
        BodyParts::SetOperation(left, right) => {
            assert(decreases_to!(m => *m->left));
            assert(decreases_to!(m => *m->right));
            BodyNode::SetOperation {
                left: Box::new(read_body(left)),
                right: Box::new(read_body(right)),
            }
        },
        BodyParts::Values => BodyNode::Values,
        BodyParts::Table => BodyNode::Table,
        BodyParts::Insert(statement) => BodyNode::Insert(kind_of_statement(statement)),
        BodyParts::Update(statement) => BodyNode::Update(kind_of_statement(statement)),
    }
}

/// Reads a query.
pub(crate) fn read_query(query: &ast::Query) -> (r: QueryNode)
    ensures
        r.model() == query_model(*query),
    decreases query_model(*query),
{
    let ghost m = query_model(*query);
    let parts = query_parts(query);
    let with = match &parts.with {
        None => None,
        Some(list) => {
            let ghost ms = m.with->0;
            let mut out: Vec<QueryNode> = Vec::new();
            let mut i: usize = 0;
            while i < list.len()
                invariant
                    i <= list.len(),
                    out.len() == i,
                    m == query_model(*query),
                    m.with == Some(ms),
                    ms.len() == list.len(),
                    forall|j: int|
                        0 <= j < ms.len() ==> #[trigger] ms[j] == query_model(*list@[j]),
                    forall|j: int| 0 <= j < i ==> (#[trigger] out@[j]).model() == ms[j],
                decreases list.len() - i,
            {
                assert(decreases_to!(m => m.with->0));
                assert(decreases_to!(ms => ms[i as int]));
                out.push(read_query(list[i]));
                i += 1;
            }
            Some(out)
        },
    };
    assert(decreases_to!(m => m.body));
    let r = QueryNode {
        with,
        body: read_body(parts.body),
        order_by: parts.order_by,
        limit: read_bound(parts.limit),
        offset: read_bound(parts.offset),
        fetch: parts.fetch,
        locks: parts.locks,
        text: parts.text,
    };
    proof {
        if m.with is Some {
            assert(r.model().with->0 =~= m.with->0);
        }
        assert(r.model().with == m.with);
    }
    r
}

/// Reads a list of queries.
fn read_queries(queries: &Vec<ast::Query>) -> (r: Vec<QueryNode>)
    ensures
        query_models(r@) == queries_model(queries@),
{
    let mut out: Vec<QueryNode> = Vec::new();
    let mut i: usize = 0;
    while i < queries.len()
        invariant
            i <= queries.len(),
            out.len() == i,
            forall|j: int| 0 <= j < i ==> (#[trigger] out@[j]).model() == query_model(queries@[j]),
        decreases queries.len() - i,
    {
        out.push(read_query(&queries[i]));
        i += 1;
    }
    assert(query_models(out@) =~= queries_model(queries@));
    out
}

/// Reads a query and every query nested in it.
pub(crate) fn read_walk(query: &ast::Query) -> (r: QueryWalk)
    ensures
        r.model() == walk_model(*query),
        walk_model(*query).query == query_model(*query),
        complete(walk_model(*query)),
    decreases walk_model(*query),
{
    let ghost m = walk_model(*query);
    let parts = walk_parts(query);
    assert(decreases_to!(m => m.body));
    let body = read_walk_body(parts.body);
    proof {
        let w = m.in_with.len() as int;
        let b = walked_in_body(m.body);
        assert forall|inner: QueryModel| #[trigger]
            stands_in_query(m.query, inner) implies walked(m).contains(inner) by {
            if stands_in_with(m.query.with, inner) {
                let k = choose|k: int| 0 <= k < w && m.in_with[k] == inner;
                assert(walked(m)[1 + k] == inner);
            } else {
                assert(stands_in_body(body_model(*parts.body), inner));
                let k = choose|k: int| 0 <= k < b.len() && b[k] == inner;
                assert(walked(m)[1 + w + k] == inner);
            }
        }
    }
    QueryWalk {
        query: read_query(query),
        in_with: read_queries(&parts.in_with),
        body,
        in_clauses: read_queries(&parts.in_clauses),
    }
}

/// Reads the queries in the body of a walked query.
fn read_walk_body(body: &ast::SetExpr) -> (r: WalkBody)
    ensures
        r.model() == walk_body_model(*body),
        forall|inner: QueryModel| #[trigger]
            stands_in_body(body_model(*body), inner) ==> walked_in_body(
                walk_body_model(*body),
            ).contains(inner),
    decreases walk_body_model(*body),
{
    let ghost m = walk_body_model(*body);
    match walk_body_parts(body) {
        WalkBodyParts::Parenthesized(query) => {
            assert(decreases_to!(m => *m->Parenthesized_0));
            let walk = read_walk(query);
            proof {
                let inside = walk_model(*query);
                assert forall|inner: QueryModel| #[trigger]
                    stands_in_body(body_model(*body), inner) implies walked_in_body(m).contains(
                    inner,
                ) by {
                    assert(walked(inside)[0] == inside.query);
                    assert(query_model(*query) == inner || stands_in_query(inside.query, inner));
                }
            }
            WalkBody::Parenthesized(Box::new(walk))
        },
        WalkBodyParts::Nested(queries) => WalkBody::Nested(read_queries(&queries)),
    }
}

/// Reads a statement.
pub(crate) fn read_statement(statement: &ast::Statement) -> (r: StatementNode)
    ensures
        r.model() == statement_model(*statement),
        statement_complete(statement_model(*statement)),
        kind_of(statement_model(*statement)) == statement_kind(*statement),
        walks_expressions(*statement),
        walks_expressions(querying(*statement)),
        statement_model(*statement) matches StatementModel::Explain { statement: inner, .. }
            ==> *inner == statement_model(querying(*statement)),
    decreases statement_model(*statement),
{
    let ghost m = statement_model(*statement);
    match statement_parts(statement) {
        StatementParts::Query(query) => StatementNode::Query(Box::new(read_walk(query))),
        StatementParts::Explain(inner, analyze, options) => {
            let list = match &options {
                None => None,
                Some(list) => {
                    let mut out: Vec<ExplainOptionNode> = Vec::new();
                    let mut i: usize = 0;
                    while i < list.len()
                        invariant
                            i <= list.len(),
                            out.len() == i,
                            forall|j: int|
                                0 <= j < i ==> (#[trigger] out@[j]).model() == option_model(
                                    list@[j],
                                ),
                        decreases list.len() - i,
                    {
                        let (name, arg) = list[i];
                        out.push(
                            ExplainOptionNode {
                                name: name.clone(),
                                arg: match arg {
                                    Some(expr) => Some(literal_parts(expr)),
                                    None => None,
                                },
                            },
                        );
                        i += 1;
                    }
                    assert(option_models(out@) =~= list@.map_values(
                        |o: (&String, Option<&ast::Expr>)| option_model(o),
                    ));
                    Some(out)
                },
            };
            assert(decreases_to!(m => *m->statement));
            StatementNode::Explain {
                statement: Box::new(read_statement(inner)),
                analyze,
                options: list,
            }
        },
        StatementParts::Other => StatementNode::Other(kind_of_statement(statement)),
    }
}

/// The models of parsed statements.
pub open spec fn statements_model(statements: Seq<ast::Statement>) -> Seq<StatementModel> {
    statements.map_values(|s: ast::Statement| statement_model(s))
}

/// The tokens with every GRANTED blunted that stands before a BY with no name
/// after it.
pub open spec fn without_nameless(tokens: Seq<TokenWithLocation>) -> Seq<TokenWithLocation> {
    tokens.map(
        |j: int, t: TokenWithLocation|
            if nameless_at(located_models(tokens), j) {
                blunted(t)
            } else {
                t
            },
    )
}

/// What a text is parsed to, or why it is not SQL. A GRANTED BY with no name
/// after it names no grantor: there GRANTED is a word like any other.
pub open spec fn parse_result(sql: Seq<char>) -> Result<Seq<ast::Statement>, ParserErrorModel> {
    match tokens_of(sql) {
        Ok(tokens) => if has_nameless(tokens) {
            match located(sql) {
                Ok(found) => parsed_tokens(without_nameless(found)),
                Err(e) => Err(ParserErrorModel::TokenizerError(e)),
            }
        } else {
            parsed(sql)
        },
        Err(_) => parsed(sql),
    }
}

/// Blunts every GRANTED that stands before a BY with no name after it.
fn blunt_nameless(found: Vec<TokenWithLocation>) -> (r: Vec<TokenWithLocation>)
    ensures
        r@ == without_nameless(found@),
        located_models(r@) == located_models(found@),
{
    let ghost models = located_models(found@);
    let mut nodes: Vec<TokenNode> = Vec::new();
    let mut i: usize = 0;
    while i < found.len()
        invariant
            i <= found.len(),
            models == located_models(found@),
            token_models(nodes@) =~= models.take(i as int),
        decreases found.len() - i,
    {
        let ghost before = nodes@;
        nodes.push(token_parts(located_token(&found[i])));
        assert(token_models(nodes@) =~= token_models(before).push(models[i as int]));
        i += 1;
    }
    assert(token_models(nodes@) =~= models);
    let mut out: Vec<TokenWithLocation> = found;
    let mut j: usize = 0;
    while j < out.len()
        invariant
            j <= out.len(),
            out.len() == found.len(),
            nodes.len() == found.len(),
            models == located_models(found@),
            token_models(nodes@) == models,
            forall|k: int| 0 <= k < j ==> #[trigger] out@[k] == without_nameless(found@)[k],
            forall|k: int| 0 <= k < j ==> token_model(token_in(#[trigger] out@[k])) == models[k],
            forall|k: int| j <= k < out.len() ==> #[trigger] out@[k] == found@[k],
        decreases out.len() - j,
    {
        if is_nameless(&nodes, j) {
            let plain = blunt(&out[j]);
            out.set(j, plain);
        }
        j += 1;
    }
    assert(out@ =~= without_nameless(found@));
    assert(located_models(out@) =~= models);
    out
}

/// Parses a text.
pub(crate) fn parse_text(sql: &str) -> (r: Result<Vec<ast::Statement>, ParserError>)
    ensures
        (match r {
            Ok(statements) => Ok(statements@),
            Err(e) => Err(e.model()),
        }) == parse_result(sql@),
{
    if let Ok(tokens) = read_tokens(sql) {
        if has_nameless_grantor(&tokens) {
            return match tokenize_located(sql) {
                Ok(found) => {
                    let ghost all = found@;
                    let plain = blunt_nameless(found);
                    assert forall|j: int| #[trigger]
                        nameless_at(located_models(plain@), j) implies is_blunted(plain@[j]) by {
                        assert(nameless_at(located_models(all), j));
                        assert(plain@[j] == blunted(all[j]));
                    }
                    parse_tokens(plain)
                },
                Err(e) => Err(ParserError::TokenizerError(e)),
            };
        }
    }
    parse_sql(sql)
}

/// The statement that holds the query: the explained one of an EXPLAIN, else
/// the statement itself.
pub open spec fn querying(statement: ast::Statement) -> ast::Statement {
    if statement_kind(statement) == StatementKind::Explain {
        explained(statement)
    } else {
        statement
    }
}

/// If the statement is a query, the walk meets every subquery in its
/// expressions.
pub open spec fn walks_expressions(statement: ast::Statement) -> bool {
    statement_model(statement) matches StatementModel::Query(walk) ==> forall|e: ast::Expr|
     #[trigger]
        expressions_of(seq![statement]).contains(e) && subquery_of(e) is Some ==> walked(
            *walk,
        ).contains(query_model(subquery_of(e)->0))
}

/// The statements of a text as the gates read them, or why it is not SQL.
pub open spec fn parsed_statements(sql: Seq<char>) -> Result<Seq<StatementModel>, ParserErrorModel> {
    match parse_result(sql) {
        Ok(statements) => Ok(statements_model(statements)),
        Err(e) => Err(e),
    }
}

/// What was read of a text.
pub open spec fn statements_read(
    result: Result<Vec<StatementNode>, ParserError>,
) -> Result<Seq<StatementModel>, ParserErrorModel> {
    match result {
        Ok(statements) => Ok(statement_models(statements@)),
        Err(e) => Err(e.model()),
    }
}

/// Every expression in the query that a text of one statement reads.
pub open spec fn expressions_read(sql: Seq<char>) -> Seq<ast::Expr> {
    expressions_of(seq![querying(parse_result(sql)->Ok_0[0])])
}

/// Subqueries in expressions are walked, and an EXPLAIN holds the model of what
/// it explains.
pub open spec fn well_read(statement: ast::Statement) -> bool {
    &&& walks_expressions(querying(statement))
    &&& statement_model(statement) matches StatementModel::Explain { statement: inner, .. }
        ==> *inner == statement_model(querying(statement))
    &&& kind_of(statement_model(statement)) == statement_kind(statement)
}

/// Parses a text and reads its statements.
pub fn read_sql(sql: &str) -> (r: Result<Vec<StatementNode>, ParserError>)
    ensures
        statements_read(r) == parsed_statements(sql@),
        parsed_statements(sql@) matches Ok(statements) ==> forall|i: int|
            0 <= i < statements.len() ==> statement_complete(#[trigger] statements[i]),
        parse_result(sql@) matches Ok(statements) ==> forall|i: int|
            0 <= i < statements.len() ==> well_read(#[trigger] statements[i]),
{
    match parse_text(sql) {
        Err(e) => Err(e),
        Ok(statements) => {
            let mut out: Vec<StatementNode> = Vec::new();
            let mut i: usize = 0;
            while i < statements.len()
                invariant
                    i <= statements.len(),
                    out.len() == i,
                    forall|j: int|
                        0 <= j < i ==> (#[trigger] out@[j]).model() == statement_model(
                            statements@[j],
                        ),
                    forall|j: int|
                        0 <= j < i ==> statement_complete(statement_model(#[trigger] statements@[j])),
                    forall|j: int| 0 <= j < i ==> well_read(#[trigger] statements@[j]),
                decreases statements.len() - i,
            {
                out.push(read_statement(&statements[i]));
                i += 1;
            }
            assert(statement_models(out@) =~= statements_model(statements@));
            Ok(out)
        },
    }
}

/// What was read of the tokens of a text.
pub open spec fn tokens_read(result: Result<Vec<TokenNode>, String>) -> Result<
    Seq<TokenModel>,
    Seq<char>,
> {
    match result {
        Ok(tokens) => Ok(token_models(tokens@)),
        Err(e) => Err(e@),
    }
}

/// Splits a text into tokens.
pub fn read_tokens(sql: &str) -> (r: Result<Vec<TokenNode>, String>)
    ensures
        tokens_read(r) == tokens_of(sql@),
{
    match tokenize_sql(sql) {
        Err(e) => Err(e),
        Ok(tokens) => {
            let mut out: Vec<TokenNode> = Vec::new();
            let mut i: usize = 0;
            while i < tokens.len()
                invariant
                    i <= tokens.len(),
                    out.len() == i,
                    forall|j: int|
                        0 <= j < i ==> (#[trigger] out@[j]).model() == token_model(tokens@[j]),
                decreases tokens.len() - i,
            {
                out.push(token_parts(&tokens[i]));
                i += 1;
            }
            assert(token_models(out@) =~= tokens@.map_values(
                |t: Token| token_model(t),
            ));
            Ok(out)
        },
    }
}

} // verus!
