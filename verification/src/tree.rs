//! The statement tree that the gates read.
//!
//! Each node holds, as plain values, what a gate looks at: names, literals,
//! join shapes, and the text that the parser would print for a node. Beside
//! each type stands its model, the same tree over mathematical sequences.

use vstd::prelude::*;

use crate::text::texts;

verus! {

/// Which class of statement was parsed.
#[derive(Debug, Clone, Copy, PartialEq, Eq, Structural)]
pub enum StatementKind {
    Query,
    Explain,
    Listen,
    Notify,
    Analyze,
    ExplainTable,
    Declare,
    Fetch,
    Close,
    Insert,
    Update,
    Delete,
    Truncate,
    Merge,
    Grant,
    Revoke,
    Copy,
    CopyInto,
    InsertDirectory,
    CreateTable,
    CreateIndex,
    CreateView,
    CreateSchema,
    CreateDatabase,
    CreateFunction,
    CreateProcedure,
    CreateType,
    CreateRole,
    CreateSequence,
    CreateExtension,
    CreateVirtualTable,
    CreateSecret,
    CreatePolicy,
    CreateTrigger,
    CreateMacro,
    CreateStage,
    Comment,
    AlterTable,
    AlterIndex,
    AlterView,
    AlterRole,
    AlterPolicy,
    Execute,
    Call,
    Prepare,
    Deallocate,
    Drop,
    DropFunction,
    DropProcedure,
    DropSecret,
    DropPolicy,
    DropTrigger,
    AttachDatabase,
    AttachDuckDatabase,
    DetachDuckDatabase,
    SetVariable,
    SetRole,
    SetNames,
    SetNamesDefault,
    SetTimeZone,
    SetTransaction,
    StartTransaction,
    Commit,
    Rollback,
    Savepoint,
    ReleaseSavepoint,
    ShowFunctions,
    ShowVariable,
    ShowStatus,
    ShowVariables,
    ShowCreate,
    ShowColumns,
    ShowDatabases,
    ShowSchemas,
    ShowTables,
    ShowViews,
    ShowCollation,
    Use,
    Discard,
    Flush,
    Kill,
    Install,
    Load,
    Pragma,
    Assert,
    Msck,
    Cache,
    Uncache,
    Unload,
    OptimizeTable,
    LockTables,
    UnlockTables,
}

/// A possibly qualified name: the parts without quotes, and the name as it is
/// printed.
#[derive(Debug)]
pub struct NameNode {
    pub parts: Vec<String>,
    pub text: String,
}

pub struct NameModel {
    pub parts: Seq<Seq<char>>,
    pub text: Seq<char>,
}

impl NameNode {
    pub open spec fn model(self) -> NameModel {
        NameModel { parts: texts(self.parts@), text: self.text@ }
    }
}

/// How a function call spells its arguments: without parentheses, as one bare
/// subquery, or as a list.
#[derive(Debug, Clone, Copy, PartialEq, Eq, Structural)]
pub enum ArgumentsKind {
    Absent,
    Subquery,
    List,
}

/// A function call in an expression.
#[derive(Debug)]
pub struct CallNode {
    pub name: NameNode,
    pub parameters: ArgumentsKind,
    pub arguments: ArgumentsKind,
    /// Whether an OVER clause makes it a window function call.
    pub over: bool,
}

pub struct CallModel {
    pub name: NameModel,
    pub parameters: ArgumentsKind,
    pub arguments: ArgumentsKind,
    pub over: bool,
}

impl CallNode {
    pub open spec fn model(self) -> CallModel {
        CallModel {
            name: self.name.model(),
            parameters: self.parameters,
            arguments: self.arguments,
            over: self.over,
        }
    }
}

/// One expression met while walking an expression.
#[derive(Debug)]
pub enum VisitedExpr {
    Subquery,
    Exists,
    InSubquery,
    AnyOp,
    AllOp,
    Call(CallNode),
    Other,
}

pub enum VisitedModel {
    Subquery,
    Exists,
    InSubquery,
    AnyOp,
    AllOp,
    Call(CallModel),
    Other,
}

impl VisitedExpr {
    pub open spec fn model(self) -> VisitedModel {
        match self {
            VisitedExpr::Subquery => VisitedModel::Subquery,
            VisitedExpr::Exists => VisitedModel::Exists,
            VisitedExpr::InSubquery => VisitedModel::InSubquery,
            VisitedExpr::AnyOp => VisitedModel::AnyOp,
            VisitedExpr::AllOp => VisitedModel::AllOp,
            VisitedExpr::Call(call) => VisitedModel::Call(call.model()),
            VisitedExpr::Other => VisitedModel::Other,
        }
    }
}

/// An expression, as the list of every expression in it: itself first, then
/// each nested one before those nested in it. Arguments, clauses, window
/// specifications and the insides of subqueries are all walked.
#[derive(Debug)]
pub struct ExprNode {
    pub visited: Vec<VisitedExpr>,
}

pub struct ExprModel {
    pub visited: Seq<VisitedModel>,
}

impl ExprNode {
    pub open spec fn model(self) -> ExprModel {
        ExprModel { visited: self.visited@.map_values(|e: VisitedExpr| e.model()) }
    }
}

/// One argument of a table-valued function.
#[derive(Debug)]
pub enum ArgNode {
    Expr(ExprNode),
    QualifiedWildcard,
    Wildcard,
}

pub enum ArgModel {
    Expr(ExprModel),
    QualifiedWildcard,
    Wildcard,
}

impl ArgNode {
    pub open spec fn model(self) -> ArgModel {
        match self {
            ArgNode::Expr(e) => ArgModel::Expr(e.model()),
            ArgNode::QualifiedWildcard => ArgModel::QualifiedWildcard,
            ArgNode::Wildcard => ArgModel::Wildcard,
        }
    }
}

/// The models of a list of arguments.
pub open spec fn arg_models(args: Seq<ArgNode>) -> Seq<ArgModel> {
    args.map_values(|a: ArgNode| a.model())
}

/// The argument list of a table-valued function in FROM.
#[derive(Debug)]
pub struct TableArgsNode {
    pub args: Vec<ArgNode>,
    /// Whether a SETTINGS clause stands in the list.
    pub settings: bool,
}

pub struct TableArgsModel {
    pub args: Seq<ArgModel>,
    pub settings: bool,
}

impl TableArgsNode {
    pub open spec fn model(self) -> TableArgsModel {
        TableArgsModel { args: arg_models(self.args@), settings: self.settings }
    }
}

/// One item of a SELECT list.
#[derive(Debug)]
pub enum SelectItemNode {
    Unnamed(ExprNode),
    Aliased(ExprNode),
    QualifiedWildcard,
    Wildcard,
}

pub enum SelectItemModel {
    Unnamed(ExprModel),
    Aliased(ExprModel),
    QualifiedWildcard,
    Wildcard,
}

impl SelectItemNode {
    pub open spec fn model(self) -> SelectItemModel {
        match self {
            SelectItemNode::Unnamed(e) => SelectItemModel::Unnamed(e.model()),
            SelectItemNode::Aliased(e) => SelectItemModel::Aliased(e.model()),
            SelectItemNode::QualifiedWildcard => SelectItemModel::QualifiedWildcard,
            SelectItemNode::Wildcard => SelectItemModel::Wildcard,
        }
    }
}

/// An expression where a literal is expected.
#[derive(Debug)]
pub enum LiteralNode {
    Number(String),
    Boolean(bool),
    Null,
    Identifier(String),
    Other,
}

pub enum LiteralModel {
    Number(Seq<char>),
    Boolean(bool),
    Null,
    Identifier(Seq<char>),
    Other,
}

impl LiteralNode {
    pub open spec fn model(self) -> LiteralModel {
        match self {
            LiteralNode::Number(n) => LiteralModel::Number(n@),
            LiteralNode::Boolean(b) => LiteralModel::Boolean(b),
            LiteralNode::Null => LiteralModel::Null,
            LiteralNode::Identifier(name) => LiteralModel::Identifier(name@),
            LiteralNode::Other => LiteralModel::Other,
        }
    }
}

/// The operand of LIMIT or OFFSET, and the operand as it is printed.
#[derive(Debug)]
pub struct BoundNode {
    pub literal: LiteralNode,
    pub text: String,
}

pub struct BoundModel {
    pub literal: LiteralModel,
    pub text: Seq<char>,
}

impl BoundNode {
    pub open spec fn model(self) -> BoundModel {
        BoundModel { literal: self.literal.model(), text: self.text@ }
    }
}

pub open spec fn bound_model(bound: Option<BoundNode>) -> Option<BoundModel> {
    match bound {
        Some(b) => Some(b.model()),
        None => None,
    }
}

/// The operators that a join condition is taken apart by.
#[derive(Debug, Clone, Copy, PartialEq, Eq, Structural)]
pub enum ConditionOperator {
    And,
    Or,
    Eq,
    Other,
}

/// A join condition.
#[derive(Debug)]
pub enum ConditionNode {
    /// A condition in parentheses.
    Nested(Box<ConditionNode>),
    /// A literal: its truth value if it has one, whether it is a placeholder, and
    /// the literal as printed. A placeholder is printed as what it holds.
    Value { boolean: Option<bool>, placeholder: bool, text: String },
    /// A string, or a placeholder, with a character set introducer.
    Introduced { introducer: String, placeholder: bool, text: String },
    /// A string with a type before it.
    Typed { data_type: String, value: String },
    /// A binary operation, and whether both operands are the same expression.
    Binary {
        left: Box<ConditionNode>,
        operator: ConditionOperator,
        right: Box<ConditionNode>,
        same_operands: bool,
    },
    Other,
}

pub enum ConditionModel {
    Nested(Box<ConditionModel>),
    Value { boolean: Option<bool>, placeholder: bool, text: Seq<char> },
    Introduced { introducer: Seq<char>, placeholder: bool, text: Seq<char> },
    Typed { data_type: Seq<char>, value: Seq<char> },
    Binary {
        left: Box<ConditionModel>,
        operator: ConditionOperator,
        right: Box<ConditionModel>,
        same_operands: bool,
    },
    Other,
}

impl ConditionNode {
    pub open spec fn model(self) -> ConditionModel
        decreases self,
    {
        match self {
            ConditionNode::Nested(inner) => ConditionModel::Nested(Box::new((*inner).model())),
            ConditionNode::Value { boolean, placeholder, text } => ConditionModel::Value {
                boolean,
                placeholder,
                text: text@,
            },
            ConditionNode::Introduced {
                introducer,
                placeholder,
                text,
            } => ConditionModel::Introduced {
                placeholder,
                introducer: introducer@,
                text: text@,
            },
            ConditionNode::Typed { data_type, value } => ConditionModel::Typed {
                data_type: data_type@,
                value: value@,
            },
            ConditionNode::Binary { left, operator, right, same_operands } =>
                ConditionModel::Binary {
                    left: Box::new((*left).model()),
                    operator,
                    right: Box::new((*right).model()),
                    same_operands,
                },
            ConditionNode::Other => ConditionModel::Other,
        }
    }
}

/// What constrains a join.
#[derive(Debug)]
pub enum JoinConstraintNode {
    On(ConditionNode),
    Using,
    Natural,
    Absent,
}

pub enum JoinConstraintModel {
    On(ConditionModel),
    Using,
    Natural,
    Absent,
}

impl JoinConstraintNode {
    pub open spec fn model(self) -> JoinConstraintModel {
        match self {
            JoinConstraintNode::On(c) => JoinConstraintModel::On(c.model()),
            JoinConstraintNode::Using => JoinConstraintModel::Using,
            JoinConstraintNode::Natural => JoinConstraintModel::Natural,
            JoinConstraintNode::Absent => JoinConstraintModel::Absent,
        }
    }
}

/// The kind of a join.
#[derive(Debug)]
pub enum JoinOperatorNode {
    Inner(JoinConstraintNode),
    LeftOuter(JoinConstraintNode),
    RightOuter(JoinConstraintNode),
    FullOuter(JoinConstraintNode),
    CrossJoin,
    LeftSemi(JoinConstraintNode),
    RightSemi(JoinConstraintNode),
    LeftAnti(JoinConstraintNode),
    RightAnti(JoinConstraintNode),
    CrossApply,
    OuterApply,
    AsOf(JoinConstraintNode),
}

pub enum JoinOperatorModel {
    Inner(JoinConstraintModel),
    LeftOuter(JoinConstraintModel),
    RightOuter(JoinConstraintModel),
    FullOuter(JoinConstraintModel),
    CrossJoin,
    LeftSemi(JoinConstraintModel),
    RightSemi(JoinConstraintModel),
    LeftAnti(JoinConstraintModel),
    RightAnti(JoinConstraintModel),
    CrossApply,
    OuterApply,
    AsOf(JoinConstraintModel),
}

impl JoinOperatorNode {
    pub open spec fn model(self) -> JoinOperatorModel {
        match self {
            JoinOperatorNode::Inner(c) => JoinOperatorModel::Inner(c.model()),
            JoinOperatorNode::LeftOuter(c) => JoinOperatorModel::LeftOuter(c.model()),
            JoinOperatorNode::RightOuter(c) => JoinOperatorModel::RightOuter(c.model()),
            JoinOperatorNode::FullOuter(c) => JoinOperatorModel::FullOuter(c.model()),
            JoinOperatorNode::CrossJoin => JoinOperatorModel::CrossJoin,
            JoinOperatorNode::LeftSemi(c) => JoinOperatorModel::LeftSemi(c.model()),
            JoinOperatorNode::RightSemi(c) => JoinOperatorModel::RightSemi(c.model()),
            JoinOperatorNode::LeftAnti(c) => JoinOperatorModel::LeftAnti(c.model()),
            JoinOperatorNode::RightAnti(c) => JoinOperatorModel::RightAnti(c.model()),
            JoinOperatorNode::CrossApply => JoinOperatorModel::CrossApply,
            JoinOperatorNode::OuterApply => JoinOperatorModel::OuterApply,
            JoinOperatorNode::AsOf(c) => JoinOperatorModel::AsOf(c.model()),
        }
    }
}

/// One join: the joined relation and how it is joined.
#[derive(Debug)]
pub struct JoinNode {
    pub relation: TableNode,
    pub operator: JoinOperatorNode,
}

pub struct JoinModel {
    pub relation: TableModel,
    pub operator: JoinOperatorModel,
}

/// A relation in FROM with the joins after it.
#[derive(Debug)]
pub struct FromNode {
    pub relation: TableNode,
    pub joins: Vec<JoinNode>,
}

pub struct FromModel {
    pub relation: TableModel,
    pub joins: Seq<JoinModel>,
}

/// A relation in FROM.
#[derive(Debug)]
pub enum TableNode {
    /// A table, or with arguments a table-valued function.
    Table { name: NameNode, args: Option<TableArgsNode> },
    Derived(Box<QueryNode>),
    TableFunction,
    Function { lateral: bool, name: NameNode, arguments: Vec<ArgNode> },
    Unnest,
    JsonTable,
    NestedJoin(Box<FromNode>),
    Pivot(Box<TableNode>),
    Unpivot(Box<TableNode>),
    MatchRecognize(Box<TableNode>),
}

pub enum TableModel {
    Table { name: NameModel, args: Option<TableArgsModel> },
    Derived(Box<QueryModel>),
    TableFunction,
    Function { lateral: bool, name: NameModel, arguments: Seq<ArgModel> },
    Unnest,
    JsonTable,
    NestedJoin(Box<FromModel>),
    Pivot(Box<TableModel>),
    Unpivot(Box<TableModel>),
    MatchRecognize(Box<TableModel>),
}

/// One SELECT.
#[derive(Debug)]
pub struct SelectNode {
    /// Whether an INTO clause stands in it.
    pub into: bool,
    pub projection: Vec<SelectItemNode>,
    pub from: Vec<FromNode>,
}

pub struct SelectModel {
    pub into: bool,
    pub projection: Seq<SelectItemModel>,
    pub from: Seq<FromModel>,
}

/// The body of a query.
#[derive(Debug)]
pub enum BodyNode {
    Select(Box<SelectNode>),
    /// A query in parentheses.
    Query(Box<QueryNode>),
    SetOperation { left: Box<BodyNode>, right: Box<BodyNode> },
    Values,
    Table,
    /// A data-modifying statement in the place of a query body.
    Insert(StatementKind),
    Update(StatementKind),
}

pub enum BodyModel {
    Select(Box<SelectModel>),
    Query(Box<QueryModel>),
    SetOperation { left: Box<BodyModel>, right: Box<BodyModel> },
    Values,
    Table,
    Insert(StatementKind),
    Update(StatementKind),
}

/// A query with its clauses.
#[derive(Debug)]
pub struct QueryNode {
    /// The queries of the WITH clause, if there is one.
    pub with: Option<Vec<QueryNode>>,
    pub body: BodyNode,
    /// The number of ORDER BY expressions, if there is an ORDER BY.
    pub order_by: Option<usize>,
    pub limit: Option<BoundNode>,
    pub offset: Option<BoundNode>,
    /// Whether a FETCH clause stands in it.
    pub fetch: bool,
    /// The number of FOR UPDATE and FOR SHARE clauses.
    pub locks: usize,
    /// The query as it is printed.
    pub text: String,
}

pub struct QueryModel {
    pub with: Option<Seq<QueryModel>>,
    pub body: BodyModel,
    pub order_by: Option<nat>,
    pub limit: Option<BoundModel>,
    pub offset: Option<BoundModel>,
    pub fetch: bool,
    pub locks: nat,
    pub text: Seq<char>,
}

impl JoinNode {
    pub open spec fn model(self) -> JoinModel
        decreases self,
    {
        JoinModel { relation: self.relation.model(), operator: self.operator.model() }
    }
}

impl FromNode {
    pub open spec fn model(self) -> FromModel
        decreases self,
    {
        let joins = self.joins;
        FromModel {
            relation: self.relation.model(),
            joins: Seq::new(
                joins@.len(),
                |i: int| if 0 <= i < joins@.len() { joins@[i].model() } else { arbitrary() },
            ),
        }
    }
}

impl TableNode {
    pub open spec fn model(self) -> TableModel
        decreases self,
    {
        match self {
            TableNode::Table { name, args } => TableModel::Table {
                name: name.model(),
                args: match args {
                    Some(a) => Some(a.model()),
                    None => None,
                },
            },
            TableNode::Derived(query) => TableModel::Derived(Box::new((*query).model())),
            TableNode::TableFunction => TableModel::TableFunction,
            TableNode::Function { lateral, name, arguments } => TableModel::Function {
                lateral,
                name: name.model(),
                arguments: arg_models(arguments@),
            },
            TableNode::Unnest => TableModel::Unnest,
            TableNode::JsonTable => TableModel::JsonTable,
            TableNode::NestedJoin(from) => TableModel::NestedJoin(Box::new((*from).model())),
            TableNode::Pivot(table) => TableModel::Pivot(Box::new((*table).model())),
            TableNode::Unpivot(table) => TableModel::Unpivot(Box::new((*table).model())),
            TableNode::MatchRecognize(table) => TableModel::MatchRecognize(
                Box::new((*table).model()),
            ),
        }
    }
}

impl SelectNode {
    pub open spec fn model(self) -> SelectModel
        decreases self,
    {
        let from = self.from;
        SelectModel {
            into: self.into,
            projection: item_models(self.projection@),
            from: Seq::new(
                from@.len(),
                |i: int| if 0 <= i < from@.len() { from@[i].model() } else { arbitrary() },
            ),
        }
    }
}

/// The models of a SELECT list.
pub open spec fn item_models(items: Seq<SelectItemNode>) -> Seq<SelectItemModel> {
    items.map_values(|item: SelectItemNode| item.model())
}

impl BodyNode {
    pub open spec fn model(self) -> BodyModel
        decreases self,
    {
        match self {
            BodyNode::Select(select) => BodyModel::Select(Box::new((*select).model())),
            BodyNode::Query(query) => BodyModel::Query(Box::new((*query).model())),
            BodyNode::SetOperation { left, right } => BodyModel::SetOperation {
                left: Box::new((*left).model()),
                right: Box::new((*right).model()),
            },
            BodyNode::Values => BodyModel::Values,
            BodyNode::Table => BodyModel::Table,
            BodyNode::Insert(kind) => BodyModel::Insert(kind),
            BodyNode::Update(kind) => BodyModel::Update(kind),
        }
    }
}

impl QueryNode {
    pub open spec fn model(self) -> QueryModel
        decreases self,
    {
        QueryModel {
            with: match self.with {
                Some(queries) => Some(
                    Seq::new(
                        queries@.len(),
                        |i: int| if 0 <= i < queries@.len() { queries@[i].model() } else { arbitrary() },
                    ),
                ),
                None => None,
            },
            body: self.body.model(),
            order_by: match self.order_by {
                Some(n) => Some(n as nat),
                None => None,
            },
            limit: bound_model(self.limit),
            offset: bound_model(self.offset),
            fetch: self.fetch,
            locks: self.locks as nat,
            text: self.text@,
        }
    }
}

/// The models of a list of queries.
pub open spec fn query_models(queries: Seq<QueryNode>) -> Seq<QueryModel> {
    queries.map_values(|q: QueryNode| q.model())
}

/// A query together with every query nested anywhere in it, in walking order:
/// the query itself, those in its WITH clause, those in its body, and those in
/// the clauses after the body. A body that is one query in parentheses is
/// walked in its turn.
#[derive(Debug)]
pub struct QueryWalk {
    pub query: QueryNode,
    pub in_with: Vec<QueryNode>,
    pub body: WalkBody,
    pub in_clauses: Vec<QueryNode>,
}

#[derive(Debug)]
pub enum WalkBody {
    Parenthesized(Box<QueryWalk>),
    Nested(Vec<QueryNode>),
}

pub struct WalkModel {
    pub query: QueryModel,
    pub in_with: Seq<QueryModel>,
    pub body: WalkBodyModel,
    pub in_clauses: Seq<QueryModel>,
}

pub enum WalkBodyModel {
    Parenthesized(Box<WalkModel>),
    Nested(Seq<QueryModel>),
}

impl QueryWalk {
    pub open spec fn model(self) -> WalkModel
        decreases self,
    {
        WalkModel {
            query: self.query.model(),
            in_with: query_models(self.in_with@),
            body: self.body.model(),
            in_clauses: query_models(self.in_clauses@),
        }
    }
}

impl WalkBody {
    pub open spec fn model(self) -> WalkBodyModel
        decreases self,
    {
        match self {
            WalkBody::Parenthesized(walk) => WalkBodyModel::Parenthesized(
                Box::new((*walk).model()),
            ),
            WalkBody::Nested(queries) => WalkBodyModel::Nested(query_models(queries@)),
        }
    }
}

/// One option of EXPLAIN, such as `ANALYZE FALSE`.
#[derive(Debug)]
pub struct ExplainOptionNode {
    pub name: String,
    pub arg: Option<LiteralNode>,
}

pub struct ExplainOptionModel {
    pub name: Seq<char>,
    pub arg: Option<LiteralModel>,
}

impl ExplainOptionNode {
    pub open spec fn model(self) -> ExplainOptionModel {
        ExplainOptionModel {
            name: self.name@,
            arg: match self.arg {
                Some(literal) => Some(literal.model()),
                None => None,
            },
        }
    }
}

/// The models of a list of EXPLAIN options.
pub open spec fn option_models(options: Seq<ExplainOptionNode>) -> Seq<ExplainOptionModel> {
    options.map_values(|o: ExplainOptionNode| o.model())
}

/// A parsed statement.
#[derive(Debug)]
pub enum StatementNode {
    Query(Box<QueryWalk>),
    Explain {
        statement: Box<StatementNode>,
        /// Whether ANALYZE stands as a keyword, outside the option list.
        analyze: bool,
        options: Option<Vec<ExplainOptionNode>>,
    },
    Other(StatementKind),
}

pub enum StatementModel {
    Query(Box<WalkModel>),
    Explain {
        statement: Box<StatementModel>,
        analyze: bool,
        options: Option<Seq<ExplainOptionModel>>,
    },
    Other(StatementKind),
}

impl StatementNode {
    pub open spec fn model(self) -> StatementModel
        decreases self,
    {
        match self {
            StatementNode::Query(walk) => StatementModel::Query(Box::new((*walk).model())),
            StatementNode::Explain { statement, analyze, options } => StatementModel::Explain {
                statement: Box::new((*statement).model()),
                analyze,
                options: match options {
                    Some(list) => Some(option_models(list@)),
                    None => None,
                },
            },
            StatementNode::Other(kind) => StatementModel::Other(kind),
        }
    }
}

/// The models of a list of statements.
pub open spec fn statement_models(statements: Seq<StatementNode>) -> Seq<StatementModel> {
    statements.map_values(|s: StatementNode| s.model())
}

/// One token of the raw statement text.
#[derive(Debug)]
pub enum TokenNode {
    /// A keyword or identifier, and whether it stands in quotes.
    Word { value: String, quoted: bool },
    SingleQuotedString,
    DoubleQuotedString(String),
    /// A Unicode-escaped string, `U&'...'`.
    UnicodeString,
    Ampersand,
    Period,
    LParen,
    Whitespace,
    Other,
}

pub enum TokenModel {
    Word { value: Seq<char>, quoted: bool },
    SingleQuotedString,
    DoubleQuotedString(Seq<char>),
    UnicodeString,
    Ampersand,
    Period,
    LParen,
    Whitespace,
    Other,
}

impl TokenNode {
    pub open spec fn model(self) -> TokenModel {
        match self {
            TokenNode::Word { value, quoted } => TokenModel::Word { value: value@, quoted },
            TokenNode::SingleQuotedString => TokenModel::SingleQuotedString,
            TokenNode::DoubleQuotedString(value) => TokenModel::DoubleQuotedString(value@),
            TokenNode::UnicodeString => TokenModel::UnicodeString,
            TokenNode::Ampersand => TokenModel::Ampersand,
            TokenNode::Period => TokenModel::Period,
            TokenNode::LParen => TokenModel::LParen,
            TokenNode::Whitespace => TokenModel::Whitespace,
            TokenNode::Other => TokenModel::Other,
        }
    }
}

/// The models of a list of tokens.
pub open spec fn token_models(tokens: Seq<TokenNode>) -> Seq<TokenModel> {
    tokens.map_values(|t: TokenNode| t.model())
}

/// `inner` stands in the relation: it is the query of a derived table in it, or
/// stands in one.
pub open spec fn stands_in_table(table: TableModel, inner: QueryModel) -> bool
    decreases table,
{
    match table {
        TableModel::Derived(query) => *query == inner || stands_in_query(*query, inner),
        TableModel::NestedJoin(from) => stands_in_from(*from, inner),
        TableModel::Pivot(source) => stands_in_table(*source, inner),
        TableModel::Unpivot(source) => stands_in_table(*source, inner),
        TableModel::MatchRecognize(source) => stands_in_table(*source, inner),
        _ => false,
    }
}

/// `inner` stands in the joined relation.
pub open spec fn stands_in_join(join: JoinModel, inner: QueryModel) -> bool
    decreases join,
{
    stands_in_table(join.relation, inner)
}

/// `inner` stands in a relation of the entry of FROM.
pub open spec fn stands_in_from(from: FromModel, inner: QueryModel) -> bool
    decreases from,
{
    stands_in_table(from.relation, inner) || exists|i: int|
        0 <= i < from.joins.len() && stands_in_join(#[trigger] from.joins[i], inner)
}

/// `inner` stands in FROM.
pub open spec fn stands_in_select(select: SelectModel, inner: QueryModel) -> bool
    decreases select,
{
    exists|i: int| 0 <= i < select.from.len() && stands_in_from(#[trigger] select.from[i], inner)
}

/// `inner` stands in the query body: in parentheses, as an operand of a set
/// operation, or in a FROM.
pub open spec fn stands_in_body(body: BodyModel, inner: QueryModel) -> bool
    decreases body,
{
    match body {
        BodyModel::Select(select) => stands_in_select(*select, inner),
        BodyModel::Query(query) => *query == inner || stands_in_query(*query, inner),
        BodyModel::SetOperation { left, right } => stands_in_body(*left, inner)
            || stands_in_body(*right, inner),
        _ => false,
    }
}

/// `inner` stands in the WITH clause: it is one of its queries, or stands in
/// one.
pub open spec fn stands_in_with(with: Option<Seq<QueryModel>>, inner: QueryModel) -> bool
    decreases with,
{
    match with {
        Some(queries) => exists|i: int|
            0 <= i < queries.len() && (#[trigger] queries[i] == inner || stands_in_query(
                queries[i],
                inner,
            )),
        None => false,
    }
}

/// `inner` stands in the WITH clause or the body of the query.
pub open spec fn stands_in_query(query: QueryModel, inner: QueryModel) -> bool
    decreases query,
{
    stands_in_with(query.with, inner) || stands_in_body(query.body, inner)
}

} // verus!
