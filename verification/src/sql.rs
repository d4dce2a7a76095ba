//! What the SQL parser hands back, one level of its tree at a time.
//!
//! The parser's own types are opaque here. For each there is a name for the
//! part of it that the gates read, and a function that takes one node apart
//! and says what the name is in terms of the names of its parts.

use sqlparser::ast;
use sqlparser::ast::{Expr, JoinOperator, Statement, TableFactor, Visit};
use sqlparser::dialect::PostgreSqlDialect;
use sqlparser::keywords::Keyword;
use sqlparser::parser::Parser;
use sqlparser::tokenizer::{Token, TokenWithLocation, Tokenizer};
use std::ops::ControlFlow;
use vstd::prelude::*;

use crate::gates::walked;
use crate::parse_error::{ParserError, ParserErrorModel};
use crate::tokens::{has_nameless, nameless_at};
use crate::tree::{
    stands_in_body, stands_in_with, ArgModel, ArgumentsKind, BodyModel, BoundModel, CallModel,
    ConditionModel, ConditionOperator, ExplainOptionModel, ExprModel, FromModel,
    JoinConstraintModel, JoinModel, JoinOperatorModel, LiteralModel, LiteralNode, NameModel,
    NameNode, QueryModel, SelectItemModel, SelectModel, StatementKind, StatementModel,
    TableArgsModel, TableModel, TokenModel, TokenNode, VisitedModel, WalkBodyModel, WalkModel,
};

verus! {

#[verifier::external_type_specification]
#[verifier::external_body]
pub struct ExStatement(ast::Statement);

#[verifier::external_type_specification]
#[verifier::external_body]
pub struct ExQuery(ast::Query);

#[verifier::external_type_specification]
#[verifier::external_body]
pub struct ExSetExpr(ast::SetExpr);

#[verifier::external_type_specification]
#[verifier::external_body]
pub struct ExSelectItem(ast::SelectItem);

#[verifier::external_type_specification]
#[verifier::external_body]
pub struct ExTableWithJoins(ast::TableWithJoins);

#[verifier::external_type_specification]
#[verifier::external_body]
pub struct ExTableFactor(ast::TableFactor);

#[verifier::external_type_specification]
#[verifier::external_body]
pub struct ExJoinOperator(ast::JoinOperator);

#[verifier::external_type_specification]
#[verifier::external_body]
pub struct ExJoinConstraint(ast::JoinConstraint);

#[verifier::external_type_specification]
#[verifier::external_body]
pub struct ExFunctionArg(ast::FunctionArg);

#[verifier::external_type_specification]
#[verifier::external_body]
pub struct ExFunctionArguments(ast::FunctionArguments);

#[verifier::external_type_specification]
#[verifier::external_body]
pub struct ExObjectName(ast::ObjectName);

#[verifier::external_type_specification]
#[verifier::external_body]
pub struct ExExpr(ast::Expr);

#[verifier::external_type_specification]
#[verifier::external_body]
pub struct ExBinaryOperator(ast::BinaryOperator);

#[verifier::external_type_specification]
#[verifier::external_body]
pub struct ExToken(Token);

#[verifier::external_type_specification]
#[verifier::external_body]
pub struct ExTokenWithLocation(TokenWithLocation);

/// What the parser makes of a text: statements, or the reason it is not SQL.
pub uninterp spec fn parsed(sql: Seq<char>) -> Result<Seq<ast::Statement>, ParserErrorModel>;

/// `Parser::parse_sql` with the PostgreSQL dialect parses the text, and what
/// comes back is a function of the text alone. It panics where it reads a GRANT
/// or REVOKE with GRANTED BY and no name after it, and nowhere else.
#[verifier::external_body]
pub(crate) fn parse_sql(sql: &str) -> (r: Result<Vec<ast::Statement>, ParserError>)
    requires
        !(tokens_of(sql@) matches Ok(tokens) && has_nameless(tokens)),
    ensures
        (match r {
            Ok(statements) => Ok(statements@),
            Err(e) => Err(e.model()),
        }) == parsed(sql@),
{
    Parser::parse_sql(&PostgreSqlDialect {}, sql).map_err(
        |e| match e {
            sqlparser::parser::ParserError::TokenizerError(s) => ParserError::TokenizerError(s),
            sqlparser::parser::ParserError::ParserError(s) => ParserError::ParserError(s),
            sqlparser::parser::ParserError::RecursionLimitExceeded =>
                ParserError::RecursionLimitExceeded,
        },
    )
}

/// The tokens of a text with where they stand, or the error that stopped the
/// tokenizer.
pub uninterp spec fn located(sql: Seq<char>) -> Result<Seq<TokenWithLocation>, Seq<char>>;

/// `Tokenizer::tokenize_with_location` with the PostgreSQL dialect splits the
/// text into tokens, white space among them, each with where it stands. An error
/// is given as it is printed.
#[verifier::external_body]
pub(crate) fn tokenize_located(sql: &str) -> (r: Result<Vec<TokenWithLocation>, String>)
    ensures
        (match r {
            Ok(tokens) => Ok(tokens@),
            Err(e) => Err(e@),
        }) == located(sql@),
{
    Tokenizer::new(&PostgreSqlDialect {}, sql).tokenize_with_location().map_err(|e| e.to_string())
}

/// The token, without where it stands.
pub uninterp spec fn token_in(located: TokenWithLocation) -> Token;

/// The field `token` of a `TokenWithLocation`.
#[verifier::external_body]
pub(crate) fn located_token<'a>(located: &'a TokenWithLocation) -> (r: &'a Token)
    ensures
        *r == token_in(*located),
{
    &located.token
}

/// The models of located tokens.
pub open spec fn located_models(tokens: Seq<TokenWithLocation>) -> Seq<TokenModel> {
    tokens.map_values(|t: TokenWithLocation| token_model(token_in(t)))
}

/// A word with ALLOCATE for its keyword, any other token as it is.
pub uninterp spec fn blunted(located: TokenWithLocation) -> TokenWithLocation;

/// Sets the field `keyword` of a `Word` to `Keyword::ALLOCATE`, a keyword that
/// the parser asks for nowhere. What the word says, its quotes and where it
/// stands are kept.
#[verifier::external_body]
pub(crate) fn blunt(located: &TokenWithLocation) -> (r: TokenWithLocation)
    ensures
        r == blunted(*located),
        token_model(token_in(r)) == token_model(token_in(*located)),
{
    let mut blunt = located.clone();
    if let Token::Word(word) = &mut blunt.token {
        word.keyword = Keyword::ALLOCATE;
    }
    blunt
}

/// The word can no longer be taken for the keyword that it spells.
pub open spec fn is_blunted(located: TokenWithLocation) -> bool {
    exists|sharp: TokenWithLocation| located == #[trigger] blunted(sharp)
}

/// What the parser makes of located tokens: statements, or the reason that they
/// are not SQL.
pub uninterp spec fn parsed_tokens(tokens: Seq<TokenWithLocation>) -> Result<
    Seq<ast::Statement>,
    ParserErrorModel,
>;

/// `Parser::with_tokens_with_locations` and `Parser::parse_statements`, with the
/// PostgreSQL dialect: what `Parser::parse_sql` does once it has the tokens. It
/// panics where it reads a GRANT or REVOKE with GRANTED BY and no name after it,
/// and nowhere else; a blunted GRANTED it does not take for that keyword. Only
/// tokens that the tokenizer made come here, blunted or not.
#[verifier::external_body]
pub(crate) fn parse_tokens(tokens: Vec<TokenWithLocation>) -> (r: Result<
    Vec<ast::Statement>,
    ParserError,
>)
    requires
        forall|j: int| #[trigger]
            nameless_at(located_models(tokens@), j) ==> is_blunted(tokens@[j]),
    ensures
        (match r {
            Ok(statements) => Ok(statements@),
            Err(e) => Err(e.model()),
        }) == parsed_tokens(tokens@),
{
    Parser::new(&PostgreSqlDialect {}).with_tokens_with_locations(tokens).parse_statements().map_err(
        |e| match e {
            sqlparser::parser::ParserError::TokenizerError(s) => ParserError::TokenizerError(s),
            sqlparser::parser::ParserError::ParserError(s) => ParserError::ParserError(s),
            sqlparser::parser::ParserError::RecursionLimitExceeded =>
                ParserError::RecursionLimitExceeded,
        },
    )
}

/// The tokens of a text, or the text of the error that stopped the tokenizer.
pub uninterp spec fn tokenized(sql: Seq<char>) -> Result<Seq<Token>, Seq<char>>;

/// `Tokenizer::tokenize` with the PostgreSQL dialect splits the text into
/// tokens, white space among them; what comes back is a function of the text
/// alone. An error is given as it is printed.
#[verifier::external_body]
pub(crate) fn tokenize_sql(sql: &str) -> (r: Result<Vec<Token>, String>)
    ensures
        (match r {
            Ok(tokens) => Ok(tokens@),
            Err(e) => Err(e@),
        }) == tokenized(sql@),
{
    Tokenizer::new(&PostgreSqlDialect {}, sql).tokenize().map_err(|e| e.to_string())
}

/// What the token gate reads of a token.
pub uninterp spec fn token_model(token: Token) -> TokenModel;

/// The variant of a `Token`; of a word its value and whether it has a quote
/// style, of a double-quoted string its value.
#[verifier::external_body]
pub(crate) fn token_parts(token: &Token) -> (r: TokenNode)
    ensures
        r.model() == token_model(*token),
{
    match token {
        Token::Word(w) =>
            TokenNode::Word { value: w.value.clone(), quoted: w.quote_style.is_some() },
        Token::SingleQuotedString(_) => TokenNode::SingleQuotedString,
        Token::DoubleQuotedString(value) => TokenNode::DoubleQuotedString(value.clone()),
        Token::UnicodeStringLiteral(_) => TokenNode::UnicodeString,
        Token::Ampersand => TokenNode::Ampersand,
        Token::Period => TokenNode::Period,
        Token::LParen => TokenNode::LParen,
        Token::Whitespace(_) => TokenNode::Whitespace,
        _ => TokenNode::Other,
    }
}

/// The tokens of a text as the token gate reads them, or the error that
/// stopped the tokenizer.
pub open spec fn tokens_of(sql: Seq<char>) -> Result<Seq<TokenModel>, Seq<char>> {
    match tokenized(sql) {
        Ok(tokens) => Ok(tokens.map_values(|t: Token| token_model(t))),
        Err(e) => Err(e),
    }
}

/// The class of a statement.
pub uninterp spec fn statement_kind(statement: ast::Statement) -> StatementKind;

/// The kind, if it is one of queries, EXPLAIN, notifications, ANALYZE and cursors.
pub open spec fn utility_kind(kind: StatementKind) -> Option<StatementKind> {
    match kind {
        StatementKind::Query
        | StatementKind::Explain
        | StatementKind::Listen
        | StatementKind::Notify
        | StatementKind::Analyze
        | StatementKind::ExplainTable
        | StatementKind::Declare
        | StatementKind::Fetch
        | StatementKind::Close => Some(kind),
        _ => None,
    }
}

/// The kind, if it is one of data changes, privileges and COPY.
pub open spec fn write_kind(kind: StatementKind) -> Option<StatementKind> {
    match kind {
        StatementKind::Insert
        | StatementKind::Update
        | StatementKind::Delete
        | StatementKind::Truncate
        | StatementKind::Merge
        | StatementKind::Grant
        | StatementKind::Revoke
        | StatementKind::Copy
        | StatementKind::CopyInto
        | StatementKind::InsertDirectory => Some(kind),
        _ => None,
    }
}

/// The kind, if it is one of CREATE of relations, schemas, code and roles.
pub open spec fn create_kind(kind: StatementKind) -> Option<StatementKind> {
    match kind {
        StatementKind::CreateTable
        | StatementKind::CreateIndex
        | StatementKind::CreateView
        | StatementKind::CreateSchema
        | StatementKind::CreateDatabase
        | StatementKind::CreateFunction
        | StatementKind::CreateProcedure
        | StatementKind::CreateType
        | StatementKind::CreateRole
        | StatementKind::CreateSequence
        | StatementKind::CreateExtension => Some(kind),
        _ => None,
    }
}

/// The kind, if it is one of the rarer forms of CREATE.
pub open spec fn create_other_kind(kind: StatementKind) -> Option<StatementKind> {
    match kind {
        StatementKind::CreateVirtualTable
        | StatementKind::CreateSecret
        | StatementKind::CreatePolicy
        | StatementKind::CreateTrigger
        | StatementKind::CreateMacro
        | StatementKind::CreateStage
        | StatementKind::Comment => Some(kind),
        _ => None,
    }
}

/// The kind, if it is one of ALTER, and stored code and its plans.
pub open spec fn alter_kind(kind: StatementKind) -> Option<StatementKind> {
    match kind {
        StatementKind::AlterTable
        | StatementKind::AlterIndex
        | StatementKind::AlterView
        | StatementKind::AlterRole
        | StatementKind::AlterPolicy
        | StatementKind::Execute
        | StatementKind::Call
        | StatementKind::Prepare
        | StatementKind::Deallocate => Some(kind),
        _ => None,
    }
}

/// The kind, if it is one of DROP, and attached databases.
pub open spec fn drop_kind(kind: StatementKind) -> Option<StatementKind> {
    match kind {
        StatementKind::Drop
        | StatementKind::DropFunction
        | StatementKind::DropProcedure
        | StatementKind::DropSecret
        | StatementKind::DropPolicy
        | StatementKind::DropTrigger
        | StatementKind::AttachDatabase
        | StatementKind::AttachDuckDatabase
        | StatementKind::DetachDuckDatabase => Some(kind),
        _ => None,
    }
}

/// The kind, if it is one of SET and transaction control.
pub open spec fn session_kind(kind: StatementKind) -> Option<StatementKind> {
    match kind {
        StatementKind::SetVariable
        | StatementKind::SetRole
        | StatementKind::SetNames
        | StatementKind::SetNamesDefault
        | StatementKind::SetTimeZone
        | StatementKind::SetTransaction
        | StatementKind::StartTransaction
        | StatementKind::Commit
        | StatementKind::Rollback
        | StatementKind::Savepoint
        | StatementKind::ReleaseSavepoint => Some(kind),
        _ => None,
    }
}

/// The kind, if it is one of SHOW.
pub open spec fn show_kind(kind: StatementKind) -> Option<StatementKind> {
    match kind {
        StatementKind::ShowFunctions
        | StatementKind::ShowVariable
        | StatementKind::ShowStatus
        | StatementKind::ShowVariables
        | StatementKind::ShowCreate
        | StatementKind::ShowColumns
        | StatementKind::ShowDatabases
        | StatementKind::ShowSchemas
        | StatementKind::ShowTables
        | StatementKind::ShowViews
        | StatementKind::ShowCollation => Some(kind),
        _ => None,
    }
}

/// The kind, if it is one of the server, its sessions and its extensions.
pub open spec fn server_kind(kind: StatementKind) -> Option<StatementKind> {
    match kind {
        StatementKind::Use
        | StatementKind::Discard
        | StatementKind::Flush
        | StatementKind::Kill
        | StatementKind::Install
        | StatementKind::Load
        | StatementKind::Pragma
        | StatementKind::Assert => Some(kind),
        _ => None,
    }
}

/// The kind, if it is one of table storage, caches and locks.
pub open spec fn storage_kind(kind: StatementKind) -> Option<StatementKind> {
    match kind {
        StatementKind::Msck
        | StatementKind::Cache
        | StatementKind::Uncache
        | StatementKind::Unload
        | StatementKind::OptimizeTable
        | StatementKind::LockTables => Some(kind),
        _ => None,
    }
}

/// Tells apart the variants of `Statement` for queries, EXPLAIN, notifications, ANALYZE and cursors.
#[verifier::external_body]
fn utility_statement(statement: &ast::Statement) -> (r: Option<StatementKind>)
    ensures
        r == utility_kind(statement_kind(*statement)),
{
    match statement {
        Statement::Query(_) => Some(StatementKind::Query),
        Statement::Explain { .. } => Some(StatementKind::Explain),
        Statement::LISTEN { .. } => Some(StatementKind::Listen),
        Statement::NOTIFY { .. } => Some(StatementKind::Notify),
        Statement::Analyze { .. } => Some(StatementKind::Analyze),
        Statement::ExplainTable { .. } => Some(StatementKind::ExplainTable),
        Statement::Declare { .. } => Some(StatementKind::Declare),
        Statement::Fetch { .. } => Some(StatementKind::Fetch),
        Statement::Close { .. } => Some(StatementKind::Close),
        _ => None,
    }
}

/// Tells apart the variants of `Statement` for data changes, privileges and COPY.
#[verifier::external_body]
fn write_statement(statement: &ast::Statement) -> (r: Option<StatementKind>)
    ensures
        r == write_kind(statement_kind(*statement)),
{
    match statement {
        Statement::Insert(_) => Some(StatementKind::Insert),
        Statement::Update { .. } => Some(StatementKind::Update),
        Statement::Delete(_) => Some(StatementKind::Delete),
        Statement::Truncate { .. } => Some(StatementKind::Truncate),
        Statement::Merge { .. } => Some(StatementKind::Merge),
        Statement::Grant { .. } => Some(StatementKind::Grant),
        Statement::Revoke { .. } => Some(StatementKind::Revoke),
        Statement::Copy { .. } => Some(StatementKind::Copy),
        Statement::CopyIntoSnowflake { .. } => Some(StatementKind::CopyInto),
        Statement::Directory { .. } => Some(StatementKind::InsertDirectory),
        _ => None,
    }
}

/// Tells apart the variants of `Statement` for CREATE of relations, schemas, code and roles.
#[verifier::external_body]
fn create_statement(statement: &ast::Statement) -> (r: Option<StatementKind>)
    ensures
        r == create_kind(statement_kind(*statement)),
{
    match statement {
        Statement::CreateTable { .. } => Some(StatementKind::CreateTable),
        Statement::CreateIndex { .. } => Some(StatementKind::CreateIndex),
        Statement::CreateView { .. } => Some(StatementKind::CreateView),
        Statement::CreateSchema { .. } => Some(StatementKind::CreateSchema),
        Statement::CreateDatabase { .. } => Some(StatementKind::CreateDatabase),
        Statement::CreateFunction { .. } => Some(StatementKind::CreateFunction),
        Statement::CreateProcedure { .. } => Some(StatementKind::CreateProcedure),
        Statement::CreateType { .. } => Some(StatementKind::CreateType),
        Statement::CreateRole { .. } => Some(StatementKind::CreateRole),
        Statement::CreateSequence { .. } => Some(StatementKind::CreateSequence),
        Statement::CreateExtension { .. } => Some(StatementKind::CreateExtension),
        _ => None,
    }
}

/// Tells apart the variants of `Statement` for the rarer forms of CREATE.
#[verifier::external_body]
fn create_other_statement(statement: &ast::Statement) -> (r: Option<StatementKind>)
    ensures
        r == create_other_kind(statement_kind(*statement)),
{
    match statement {
        Statement::CreateVirtualTable { .. } => Some(StatementKind::CreateVirtualTable),
        Statement::CreateSecret { .. } => Some(StatementKind::CreateSecret),
        Statement::CreatePolicy { .. } => Some(StatementKind::CreatePolicy),
        Statement::CreateTrigger { .. } => Some(StatementKind::CreateTrigger),
        Statement::CreateMacro { .. } => Some(StatementKind::CreateMacro),
        Statement::CreateStage { .. } => Some(StatementKind::CreateStage),
        Statement::Comment { .. } => Some(StatementKind::Comment),
        _ => None,
    }
}

/// Tells apart the variants of `Statement` for ALTER, and stored code and its plans.
#[verifier::external_body]
fn alter_statement(statement: &ast::Statement) -> (r: Option<StatementKind>)
    ensures
        r == alter_kind(statement_kind(*statement)),
{
    match statement {
        Statement::AlterTable { .. } => Some(StatementKind::AlterTable),
        Statement::AlterIndex { .. } => Some(StatementKind::AlterIndex),
        Statement::AlterView { .. } => Some(StatementKind::AlterView),
        Statement::AlterRole { .. } => Some(StatementKind::AlterRole),
        Statement::AlterPolicy { .. } => Some(StatementKind::AlterPolicy),
        Statement::Execute { .. } => Some(StatementKind::Execute),
        Statement::Call { .. } => Some(StatementKind::Call),
        Statement::Prepare { .. } => Some(StatementKind::Prepare),
        Statement::Deallocate { .. } => Some(StatementKind::Deallocate),
        _ => None,
    }
}

/// Tells apart the variants of `Statement` for DROP, and attached databases.
#[verifier::external_body]
fn drop_statement(statement: &ast::Statement) -> (r: Option<StatementKind>)
    ensures
        r == drop_kind(statement_kind(*statement)),
{
    match statement {
        Statement::Drop { .. } => Some(StatementKind::Drop),
        Statement::DropFunction { .. } => Some(StatementKind::DropFunction),
        Statement::DropProcedure { .. } => Some(StatementKind::DropProcedure),
        Statement::DropSecret { .. } => Some(StatementKind::DropSecret),
        Statement::DropPolicy { .. } => Some(StatementKind::DropPolicy),
        Statement::DropTrigger { .. } => Some(StatementKind::DropTrigger),
        Statement::AttachDatabase { .. } => Some(StatementKind::AttachDatabase),
        Statement::AttachDuckDBDatabase { .. } => Some(StatementKind::AttachDuckDatabase),
        Statement::DetachDuckDBDatabase { .. } => Some(StatementKind::DetachDuckDatabase),
        _ => None,
    }
}

/// Tells apart the variants of `Statement` for SET and transaction control.
#[verifier::external_body]
fn session_statement(statement: &ast::Statement) -> (r: Option<StatementKind>)
    ensures
        r == session_kind(statement_kind(*statement)),
{
    match statement {
        Statement::SetVariable { .. } => Some(StatementKind::SetVariable),
        Statement::SetRole { .. } => Some(StatementKind::SetRole),
        Statement::SetNames { .. } => Some(StatementKind::SetNames),
        Statement::SetNamesDefault { .. } => Some(StatementKind::SetNamesDefault),
        Statement::SetTimeZone { .. } => Some(StatementKind::SetTimeZone),
        Statement::SetTransaction { .. } => Some(StatementKind::SetTransaction),
        Statement::StartTransaction { .. } => Some(StatementKind::StartTransaction),
        Statement::Commit { .. } => Some(StatementKind::Commit),
        Statement::Rollback { .. } => Some(StatementKind::Rollback),
        Statement::Savepoint { .. } => Some(StatementKind::Savepoint),
        Statement::ReleaseSavepoint { .. } => Some(StatementKind::ReleaseSavepoint),
        _ => None,
    }
}

/// Tells apart the variants of `Statement` for SHOW.
#[verifier::external_body]
fn show_statement(statement: &ast::Statement) -> (r: Option<StatementKind>)
    ensures
        r == show_kind(statement_kind(*statement)),
{
    match statement {
        Statement::ShowFunctions { .. } => Some(StatementKind::ShowFunctions),
        Statement::ShowVariable { .. } => Some(StatementKind::ShowVariable),
        Statement::ShowStatus { .. } => Some(StatementKind::ShowStatus),
        Statement::ShowVariables { .. } => Some(StatementKind::ShowVariables),
        Statement::ShowCreate { .. } => Some(StatementKind::ShowCreate),
        Statement::ShowColumns { .. } => Some(StatementKind::ShowColumns),
        Statement::ShowDatabases { .. } => Some(StatementKind::ShowDatabases),
        Statement::ShowSchemas { .. } => Some(StatementKind::ShowSchemas),
        Statement::ShowTables { .. } => Some(StatementKind::ShowTables),
        Statement::ShowViews { .. } => Some(StatementKind::ShowViews),
        Statement::ShowCollation { .. } => Some(StatementKind::ShowCollation),
        _ => None,
    }
}

/// Tells apart the variants of `Statement` for the server, its sessions and its extensions.
#[verifier::external_body]
fn server_statement(statement: &ast::Statement) -> (r: Option<StatementKind>)
    ensures
        r == server_kind(statement_kind(*statement)),
{
    match statement {
        Statement::Use(_) => Some(StatementKind::Use),
        Statement::Discard { .. } => Some(StatementKind::Discard),
        Statement::Flush { .. } => Some(StatementKind::Flush),
        Statement::Kill { .. } => Some(StatementKind::Kill),
        Statement::Install { .. } => Some(StatementKind::Install),
        Statement::Load { .. } => Some(StatementKind::Load),
        Statement::Pragma { .. } => Some(StatementKind::Pragma),
        Statement::Assert { .. } => Some(StatementKind::Assert),
        _ => None,
    }
}

/// Tells apart the variants of `Statement` for table storage, caches and locks.
#[verifier::external_body]
fn storage_statement(statement: &ast::Statement) -> (r: Option<StatementKind>)
    ensures
        r == storage_kind(statement_kind(*statement)),
{
    match statement {
        Statement::Msck { .. } => Some(StatementKind::Msck),
        Statement::Cache { .. } => Some(StatementKind::Cache),
        Statement::UNCache { .. } => Some(StatementKind::Uncache),
        Statement::Unload { .. } => Some(StatementKind::Unload),
        Statement::OptimizeTable { .. } => Some(StatementKind::OptimizeTable),
        Statement::LockTables { .. } => Some(StatementKind::LockTables),
        _ => None,
    }
}

/// The class of a statement. What is none of the others is UNLOCK TABLES.
pub fn kind_of_statement(statement: &ast::Statement) -> (r: StatementKind)
    ensures
        r == statement_kind(*statement),
{
    if let Some(kind) = utility_statement(statement) {
        return kind;
    }
    if let Some(kind) = write_statement(statement) {
        return kind;
    }
    if let Some(kind) = create_statement(statement) {
        return kind;
    }
    if let Some(kind) = create_other_statement(statement) {
        return kind;
    }
    if let Some(kind) = alter_statement(statement) {
        return kind;
    }
    if let Some(kind) = drop_statement(statement) {
        return kind;
    }
    if let Some(kind) = session_statement(statement) {
        return kind;
    }
    if let Some(kind) = show_statement(statement) {
        return kind;
    }
    if let Some(kind) = server_statement(statement) {
        return kind;
    }
    if let Some(kind) = storage_statement(statement) {
        return kind;
    }
    StatementKind::UnlockTables
}

/// The statement that an EXPLAIN explains.
pub uninterp spec fn explained(statement: ast::Statement) -> ast::Statement;

/// Every expression in the statements, in visiting order.
pub uninterp spec fn expressions_of(statements: Seq<ast::Statement>) -> Seq<ast::Expr>;

/// `visit_expressions` hands over every expression in the statements.
#[verifier::external_body]
pub(crate) fn statement_expressions(statements: &Vec<ast::Statement>) -> (r: Vec<ast::Expr>)
    ensures
        r@ == expressions_of(statements@),
{
    let mut found: Vec<ast::Expr> = Vec::new();
    let _ = ast::visit_expressions(
        statements,
        |e: &ast::Expr|
            {
                found.push(e.clone());
                ControlFlow::<()>::Continue(())
            },
    );
    found
}

/// What the gates read of a statement.
pub uninterp spec fn statement_model(statement: ast::Statement) -> StatementModel;

/// A statement taken apart: a query, an EXPLAIN, or something else.
pub enum StatementParts<'a> {
    Query(&'a ast::Query),
    Explain(&'a ast::Statement, bool, Option<Vec<(&'a String, Option<&'a ast::Expr>)>>),
    Other,
}

/// The model of one EXPLAIN option.
pub open spec fn option_model(option: (&String, Option<&ast::Expr>)) -> ExplainOptionModel {
    ExplainOptionModel {
        name: option.0@,
        arg: match option.1 {
            Some(e) => Some(literal_model(*e)),
            None => None,
        },
    }
}

/// Takes apart the variants `Query` and `Explain` of `Statement`: the query;
/// the explained statement, the `analyze` flag, and each option's name and
/// argument. The derived `Visit` of a statement that is a query goes through
/// the query alone: it hands over, as a query, every subquery that it meets in
/// an expression.
#[verifier::external_body]
pub(crate) fn statement_parts<'a>(statement: &'a ast::Statement) -> (r: StatementParts<'a>)
    ensures
        statement_model(*statement) == (match r {
            StatementParts::Query(query) => StatementModel::Query(Box::new(walk_model(*query))),
            StatementParts::Explain(inner, analyze, options) => StatementModel::Explain {
                statement: Box::new(statement_model(*inner)),
                analyze,
                options: match options {
                    Some(list) => Some(
                        list@.map_values(
                            |o: (&'a String, Option<&'a ast::Expr>)| option_model(o),
                        ),
                    ),
                    None => None,
                },
            },
            StatementParts::Other => StatementModel::Other(statement_kind(*statement)),
        }),
        statement_kind(*statement) == StatementKind::Query <==> r is Query,
        statement_kind(*statement) == StatementKind::Explain <==> r is Explain,
        r matches StatementParts::Explain(inner, _, _) ==> explained(*statement) == *inner,
        r matches StatementParts::Query(query) ==> forall|e: ast::Expr| #[trigger]
            expressions_of(seq![*statement]).contains(e) && subquery_of(e) is Some ==> walked(
                walk_model(*query),
            ).contains(query_model(subquery_of(e)->0)),
{
    match statement {
        Statement::Query(query) => StatementParts::Query(query),
        Statement::Explain { statement, analyze, options, .. } => StatementParts::Explain(
            statement,
            *analyze,
            options.as_ref().map(
                |list| list.iter().map(|o| (&o.name.value, o.arg.as_ref())).collect(),
            ),
        ),
        _ => StatementParts::Other,
    }
}

/// What the gates read of a query.
pub uninterp spec fn query_model(query: ast::Query) -> QueryModel;

/// A query taken apart.
pub struct QueryParts<'a> {
    pub with: Option<Vec<&'a ast::Query>>,
    pub body: &'a ast::SetExpr,
    pub order_by: Option<usize>,
    pub limit: Option<&'a ast::Expr>,
    pub offset: Option<&'a ast::Expr>,
    pub fetch: bool,
    pub locks: usize,
    pub text: String,
}

/// The operand of LIMIT or OFFSET: the literal, and how it is printed.
pub open spec fn bound_of(operand: Option<&ast::Expr>) -> Option<BoundModel> {
    match operand {
        Some(e) => Some(BoundModel { literal: literal_model(*e), text: printed_expr(*e) }),
        None => None,
    }
}

/// Takes a `Query` apart: the queries of its WITH clause, its body, the number
/// of ORDER BY expressions, the operands of LIMIT and OFFSET, whether there is
/// a FETCH, the number of locks, and the query as `Display` prints it. Only
/// trees that the parser built come here: their identifiers can be printed.
#[verifier::external_body]
pub(crate) fn query_parts<'a>(query: &'a ast::Query) -> (r: QueryParts<'a>)
    ensures
        query_model(*query) == (QueryModel {
            with: match r.with {
                Some(list) => Some(list@.map_values(|q: &'a ast::Query| query_model(*q))),
                None => None,
            },
            body: body_model(*r.body),
            order_by: match r.order_by {
                Some(n) => Some(n as nat),
                None => None,
            },
            limit: bound_of(r.limit),
            offset: bound_of(r.offset),
            fetch: r.fetch,
            locks: r.locks as nat,
            text: r.text@,
        }),
{
    QueryParts {
        with: query.with.as_ref().map(|w| w.cte_tables.iter().map(|c| &*c.query).collect()),
        body: &query.body,
        order_by: query.order_by.as_ref().map(|o| o.exprs.len()),
        limit: query.limit.as_ref(),
        offset: query.offset.as_ref().map(|o| &o.value),
        fetch: query.fetch.is_some(),
        locks: query.locks.len(),
        text: query.to_string(),
    }
}

/// What the gates read of a query body.
pub uninterp spec fn body_model(body: ast::SetExpr) -> BodyModel;

/// A query body taken apart. Of a SELECT: whether it has an INTO, its list and
/// its FROM.
pub enum BodyParts<'a> {
    Select(bool, &'a Vec<ast::SelectItem>, &'a Vec<ast::TableWithJoins>),
    Query(&'a ast::Query),
    SetOperation(&'a ast::SetExpr, &'a ast::SetExpr),
    Values,
    Table,
    Insert(&'a ast::Statement),
    Update(&'a ast::Statement),
}

/// Takes a `SetExpr` apart, variant by variant.
#[verifier::external_body]
pub(crate) fn body_parts<'a>(body: &'a ast::SetExpr) -> (r: BodyParts<'a>)
    ensures
        body_model(*body) == (match r {
            BodyParts::Select(into, projection, from) => BodyModel::Select(
                Box::new(
                    SelectModel {
                        into,
                        projection: projection@.map_values(|i: ast::SelectItem| item_model(i)),
                        from: from@.map_values(|f: ast::TableWithJoins| from_model(f)),
                    },
                ),
            ),
            BodyParts::Query(query) => BodyModel::Query(Box::new(query_model(*query))),
            BodyParts::SetOperation(left, right) => BodyModel::SetOperation {
                left: Box::new(body_model(*left)),
                right: Box::new(body_model(*right)),
            },
            BodyParts::Values => BodyModel::Values,
            BodyParts::Table => BodyModel::Table,
            BodyParts::Insert(statement) => BodyModel::Insert(statement_kind(*statement)),
            BodyParts::Update(statement) => BodyModel::Update(statement_kind(*statement)),
        }),
{
    match body {
        ast::SetExpr::Select(s) => BodyParts::Select(s.into.is_some(), &s.projection, &s.from),
        ast::SetExpr::Query(query) => BodyParts::Query(query),
        ast::SetExpr::SetOperation { left, right, .. } => BodyParts::SetOperation(left, right),
        ast::SetExpr::Values(_) => BodyParts::Values,
        ast::SetExpr::Table(_) => BodyParts::Table,
        ast::SetExpr::Insert(statement) => BodyParts::Insert(statement),
        ast::SetExpr::Update(statement) => BodyParts::Update(statement),
    }
}

/// What the gates read of a SELECT list item.
pub uninterp spec fn item_model(item: ast::SelectItem) -> SelectItemModel;

/// A SELECT list item taken apart.
pub enum ItemParts<'a> {
    Unnamed(&'a ast::Expr),
    Aliased(&'a ast::Expr),
    QualifiedWildcard,
    Wildcard,
}

/// Takes a `SelectItem` apart, variant by variant.
#[verifier::external_body]
pub(crate) fn item_parts<'a>(item: &'a ast::SelectItem) -> (r: ItemParts<'a>)
    ensures
        item_model(*item) == (match r {
            ItemParts::Unnamed(e) => SelectItemModel::Unnamed(expr_model(*e)),
            ItemParts::Aliased(e) => SelectItemModel::Aliased(expr_model(*e)),
            ItemParts::QualifiedWildcard => SelectItemModel::QualifiedWildcard,
            ItemParts::Wildcard => SelectItemModel::Wildcard,
        }),
{
    match item {
        ast::SelectItem::UnnamedExpr(expr) => ItemParts::Unnamed(expr),
        ast::SelectItem::ExprWithAlias { expr, .. } => ItemParts::Aliased(expr),
        ast::SelectItem::QualifiedWildcard(_, _) => ItemParts::QualifiedWildcard,
        ast::SelectItem::Wildcard(_) => ItemParts::Wildcard,
    }
}

/// What the gates read of an entry of FROM.
pub uninterp spec fn from_model(from: ast::TableWithJoins) -> FromModel;

/// An entry of FROM taken apart; of each join the relation and the operator.
pub struct FromParts<'a> {
    pub relation: &'a ast::TableFactor,
    pub joins: Vec<(&'a ast::TableFactor, &'a ast::JoinOperator)>,
}

/// The model of one join.
pub open spec fn join_model(join: (&ast::TableFactor, &ast::JoinOperator)) -> JoinModel {
    JoinModel { relation: table_model(*join.0), operator: operator_model(*join.1) }
}

/// Takes a `TableWithJoins` apart, and each `Join` in it.
#[verifier::external_body]
pub(crate) fn from_parts<'a>(from: &'a ast::TableWithJoins) -> (r: FromParts<'a>)
    ensures
        from_model(*from) == (FromModel {
            relation: table_model(*r.relation),
            joins: r.joins@.map_values(
                |j: (&'a ast::TableFactor, &'a ast::JoinOperator)| join_model(j),
            ),
        }),
{
    FromParts {
        relation: &from.relation,
        joins: from.joins.iter().map(|j| (&j.relation, &j.join_operator)).collect(),
    }
}

/// What the gates read of a relation.
pub uninterp spec fn table_model(table: ast::TableFactor) -> TableModel;

/// A relation taken apart; of a table-valued function the arguments, and
/// whether there are settings.
pub enum TableParts<'a> {
    Table(&'a ast::ObjectName, Option<(&'a Vec<ast::FunctionArg>, bool)>),
    Derived(&'a ast::Query),
    TableFunction,
    Function(bool, &'a ast::ObjectName, &'a Vec<ast::FunctionArg>),
    Unnest,
    JsonTable,
    NestedJoin(&'a ast::TableWithJoins),
    Pivot(&'a ast::TableFactor),
    Unpivot(&'a ast::TableFactor),
    MatchRecognize(&'a ast::TableFactor),
}

/// The models of a list of arguments.
pub open spec fn args_model(args: Seq<ast::FunctionArg>) -> Seq<ArgModel> {
    args.map_values(|a: ast::FunctionArg| arg_model(a))
}

/// The model of a relation taken apart.
pub open spec fn table_of(parts: TableParts<'_>) -> TableModel {
    match parts {
        TableParts::Table(name, args) => TableModel::Table {
            name: name_model(*name),
            args: match args {
                Some(list) => Some(TableArgsModel { args: args_model(list.0@), settings: list.1 }),
                None => None,
            },
        },
        TableParts::Derived(query) => TableModel::Derived(Box::new(query_model(*query))),
        TableParts::TableFunction => TableModel::TableFunction,
        TableParts::Function(lateral, name, args) => TableModel::Function {
            lateral,
            name: name_model(*name),
            arguments: args_model(args@),
        },
        TableParts::Unnest => TableModel::Unnest,
        TableParts::JsonTable => TableModel::JsonTable,
        TableParts::NestedJoin(from) => TableModel::NestedJoin(Box::new(from_model(*from))),
        TableParts::Pivot(table) => TableModel::Pivot(Box::new(table_model(*table))),
        TableParts::Unpivot(table) => TableModel::Unpivot(Box::new(table_model(*table))),
        TableParts::MatchRecognize(table) => TableModel::MatchRecognize(
            Box::new(table_model(*table)),
        ),
    }
}

/// Takes a `TableFactor` apart, variant by variant. The match has no catch-all
/// arm: a variant that a later parser adds stops the build here.
#[verifier::external_body]
pub(crate) fn table_parts<'a>(table: &'a ast::TableFactor) -> (r: TableParts<'a>)
    ensures
        table_model(*table) == table_of(r),
{
    match table {
        TableFactor::Table { name, args, .. } =>
            TableParts::Table(name, args.as_ref().map(|a| (&a.args, a.settings.is_some()))),
        TableFactor::Derived { subquery, .. } => TableParts::Derived(subquery),
        TableFactor::TableFunction { .. } => TableParts::TableFunction,
        TableFactor::Function { lateral, name, args, .. } =>
            TableParts::Function(*lateral, name, args),
        TableFactor::UNNEST { .. } => TableParts::Unnest,
        TableFactor::JsonTable { .. } => TableParts::JsonTable,
        TableFactor::NestedJoin { table_with_joins: t, .. } => TableParts::NestedJoin(t),
        TableFactor::Pivot { table, .. } => TableParts::Pivot(table),
        TableFactor::Unpivot { table, .. } => TableParts::Unpivot(table),
        TableFactor::MatchRecognize { table, .. } => TableParts::MatchRecognize(table),
    }
}

/// What the gates read of a join operator.
pub uninterp spec fn operator_model(operator: ast::JoinOperator) -> JoinOperatorModel;

/// A join operator taken apart.
pub enum OperatorParts<'a> {
    Inner(&'a ast::JoinConstraint),
    LeftOuter(&'a ast::JoinConstraint),
    RightOuter(&'a ast::JoinConstraint),
    FullOuter(&'a ast::JoinConstraint),
    CrossJoin,
    LeftSemi(&'a ast::JoinConstraint),
    RightSemi(&'a ast::JoinConstraint),
    LeftAnti(&'a ast::JoinConstraint),
    RightAnti(&'a ast::JoinConstraint),
    CrossApply,
    OuterApply,
    AsOf(&'a ast::JoinConstraint),
}

/// The model of a join operator taken apart.
pub open spec fn operator_of(parts: OperatorParts<'_>) -> JoinOperatorModel {
    match parts {
        OperatorParts::Inner(c) => JoinOperatorModel::Inner(constraint_model(*c)),
        OperatorParts::LeftOuter(c) => JoinOperatorModel::LeftOuter(constraint_model(*c)),
        OperatorParts::RightOuter(c) => JoinOperatorModel::RightOuter(constraint_model(*c)),
        OperatorParts::FullOuter(c) => JoinOperatorModel::FullOuter(constraint_model(*c)),
        OperatorParts::CrossJoin => JoinOperatorModel::CrossJoin,
        OperatorParts::LeftSemi(c) => JoinOperatorModel::LeftSemi(constraint_model(*c)),
        OperatorParts::RightSemi(c) => JoinOperatorModel::RightSemi(constraint_model(*c)),
        OperatorParts::LeftAnti(c) => JoinOperatorModel::LeftAnti(constraint_model(*c)),
        OperatorParts::RightAnti(c) => JoinOperatorModel::RightAnti(constraint_model(*c)),
        OperatorParts::CrossApply => JoinOperatorModel::CrossApply,
        OperatorParts::OuterApply => JoinOperatorModel::OuterApply,
        OperatorParts::AsOf(c) => JoinOperatorModel::AsOf(constraint_model(*c)),
    }
}

/// Takes a `JoinOperator` apart, variant by variant.
#[verifier::external_body]
pub(crate) fn operator_parts<'a>(operator: &'a ast::JoinOperator) -> (r: OperatorParts<'a>)
    ensures
        operator_model(*operator) == operator_of(r),
{
    match operator {
        JoinOperator::Inner(c) => OperatorParts::Inner(c),
        JoinOperator::LeftOuter(c) => OperatorParts::LeftOuter(c),
        JoinOperator::RightOuter(c) => OperatorParts::RightOuter(c),
        JoinOperator::FullOuter(c) => OperatorParts::FullOuter(c),
        JoinOperator::CrossJoin => OperatorParts::CrossJoin,
        JoinOperator::LeftSemi(c) => OperatorParts::LeftSemi(c),
        JoinOperator::RightSemi(c) => OperatorParts::RightSemi(c),
        JoinOperator::LeftAnti(c) => OperatorParts::LeftAnti(c),
        JoinOperator::RightAnti(c) => OperatorParts::RightAnti(c),
        JoinOperator::CrossApply => OperatorParts::CrossApply,
        JoinOperator::OuterApply => OperatorParts::OuterApply,
        JoinOperator::AsOf { constraint, .. } => OperatorParts::AsOf(constraint),
    }
}

/// What the gates read of a join constraint.
pub uninterp spec fn constraint_model(constraint: ast::JoinConstraint) -> JoinConstraintModel;

/// A join constraint taken apart.
pub enum ConstraintParts<'a> {
    On(&'a ast::Expr),
    Using,
    Natural,
    Absent,
}

/// Takes a `JoinConstraint` apart, variant by variant.
#[verifier::external_body]
pub(crate) fn constraint_parts<'a>(constraint: &'a ast::JoinConstraint) -> (r: ConstraintParts<'a>)
    ensures
        constraint_model(*constraint) == (match r {
            ConstraintParts::On(e) => JoinConstraintModel::On(condition_model(*e)),
            ConstraintParts::Using => JoinConstraintModel::Using,
            ConstraintParts::Natural => JoinConstraintModel::Natural,
            ConstraintParts::Absent => JoinConstraintModel::Absent,
        }),
{
    match constraint {
        ast::JoinConstraint::On(expr) => ConstraintParts::On(expr),
        ast::JoinConstraint::Using(_) => ConstraintParts::Using,
        ast::JoinConstraint::Natural => ConstraintParts::Natural,
        ast::JoinConstraint::None => ConstraintParts::Absent,
    }
}

/// What the gates read of an argument of a table-valued function.
pub uninterp spec fn arg_model(arg: ast::FunctionArg) -> ArgModel;

/// An argument taken apart.
pub enum ArgParts<'a> {
    Expr(&'a ast::Expr),
    QualifiedWildcard,
    Wildcard,
}

/// Takes a `FunctionArg` apart; its name and operator, if it is a named one,
/// are left out.
#[verifier::external_body]
pub(crate) fn arg_parts<'a>(arg: &'a ast::FunctionArg) -> (r: ArgParts<'a>)
    ensures
        arg_model(*arg) == (match r {
            ArgParts::Expr(e) => ArgModel::Expr(expr_model(*e)),
            ArgParts::QualifiedWildcard => ArgModel::QualifiedWildcard,
            ArgParts::Wildcard => ArgModel::Wildcard,
        }),
{
    let value = match arg {
        ast::FunctionArg::Named { arg, .. } => arg,
        ast::FunctionArg::Unnamed(arg) => arg,
    };
    match value {
        ast::FunctionArgExpr::Expr(expr) => ArgParts::Expr(expr),
        ast::FunctionArgExpr::QualifiedWildcard(_) => ArgParts::QualifiedWildcard,
        ast::FunctionArgExpr::Wildcard => ArgParts::Wildcard,
    }
}

/// A possibly qualified name: the values of its parts, and how it is printed.
pub uninterp spec fn name_model(name: ast::ObjectName) -> NameModel;

/// The values of the identifiers of an `ObjectName`, without quotes, and the
/// name as `Display` prints it. Only names that the parser built come here.
#[verifier::external_body]
pub(crate) fn name_parts(name: &ast::ObjectName) -> (r: NameNode)
    ensures
        r.model() == name_model(*name),
{
    NameNode {
        parts: name.0.iter().map(|part| part.value.clone()).collect(),
        text: name.to_string(),
    }
}

/// An expression where a literal is expected.
pub uninterp spec fn literal_model(expr: ast::Expr) -> LiteralModel;

/// Tells apart the literals of an `Expr` that the gates read.
#[verifier::external_body]
pub(crate) fn literal_parts(expr: &ast::Expr) -> (r: LiteralNode)
    ensures
        r.model() == literal_model(*expr),
{
    match expr {
        Expr::Value(ast::Value::Number(n, _)) => LiteralNode::Number(n.clone()),
        Expr::Value(ast::Value::Boolean(b)) => LiteralNode::Boolean(*b),
        Expr::Value(ast::Value::Null) => LiteralNode::Null,
        Expr::Identifier(ident) => LiteralNode::Identifier(ident.value.clone()),
        _ => LiteralNode::Other,
    }
}

/// An expression as it is printed.
pub uninterp spec fn printed_expr(expr: ast::Expr) -> Seq<char>;

/// `Display` of an `Expr` that the parser built.
#[verifier::external_body]
pub(crate) fn expr_text(expr: &ast::Expr) -> (r: String)
    ensures
        r@ == printed_expr(*expr),
{
    expr.to_string()
}

/// Every expression in an expression, in visiting order.
pub uninterp spec fn expressions_in(expr: ast::Expr) -> Seq<ast::Expr>;

/// `visit_expressions` hands over the expression itself, then each expression
/// nested anywhere in it, those nested in another after it.
#[verifier::external_body]
pub(crate) fn visited_expressions(expr: &ast::Expr) -> (r: Vec<ast::Expr>)
    ensures
        r@ == expressions_in(*expr),
        r@.len() > 0,
        r@[0] == *expr,
{
    let mut found: Vec<ast::Expr> = Vec::new();
    let _ = ast::visit_expressions(
        expr,
        |e: &ast::Expr|
            {
                found.push(e.clone());
                ControlFlow::<()>::Continue(())
            },
    );
    found
}

/// What the gates read of a visited expression.
pub uninterp spec fn visited_model(expr: ast::Expr) -> VisitedModel;

/// A visited expression taken apart; of a subquery the query, of a call the
/// name, the parameters, the arguments, and whether it has an OVER.
pub enum VisitedParts<'a> {
    Subquery(&'a ast::Query),
    Exists(&'a ast::Query),
    InSubquery(&'a ast::Query),
    AnyOp,
    AllOp,
    Call(&'a ast::ObjectName, &'a ast::FunctionArguments, &'a ast::FunctionArguments, bool),
    Other,
}

/// The model of a visited expression taken apart.
pub open spec fn visited_of(parts: VisitedParts<'_>) -> VisitedModel {
    match parts {
        VisitedParts::Subquery(_) => VisitedModel::Subquery,
        VisitedParts::Exists(_) => VisitedModel::Exists,
        VisitedParts::InSubquery(_) => VisitedModel::InSubquery,
        VisitedParts::AnyOp => VisitedModel::AnyOp,
        VisitedParts::AllOp => VisitedModel::AllOp,
        VisitedParts::Call(name, parameters, arguments, over) => VisitedModel::Call(
            CallModel {
                name: name_model(*name),
                parameters: arguments_model(*parameters),
                arguments: arguments_model(*arguments),
                over,
            },
        ),
        VisitedParts::Other => VisitedModel::Other,
    }
}

/// The query that an expression is made of: a scalar subquery, that of EXISTS
/// or of IN, or the bare argument of a call.
pub uninterp spec fn subquery_of(expr: ast::Expr) -> Option<ast::Query>;

/// The query of a visited expression taken apart.
pub open spec fn query_of(parts: VisitedParts<'_>) -> Option<ast::Query> {
    match parts {
        VisitedParts::Subquery(query) => Some(*query),
        VisitedParts::Exists(query) => Some(*query),
        VisitedParts::InSubquery(query) => Some(*query),
        VisitedParts::Call(_, _, arguments, _) => arguments_query(*arguments),
        _ => None,
    }
}

/// Tells apart the variants of `Expr` that carry a subquery or a call.
#[verifier::external_body]
pub(crate) fn visited_parts<'a>(expr: &'a ast::Expr) -> (r: VisitedParts<'a>)
    ensures
        visited_model(*expr) == visited_of(r),
        subquery_of(*expr) == query_of(r),
{
    match expr {
        Expr::Subquery(query) => VisitedParts::Subquery(query),
        Expr::Exists { subquery, .. } => VisitedParts::Exists(subquery),
        Expr::InSubquery { subquery, .. } => VisitedParts::InSubquery(subquery),
        Expr::AnyOp { .. } => VisitedParts::AnyOp,
        Expr::AllOp { .. } => VisitedParts::AllOp,
        Expr::Function(f) =>
            VisitedParts::Call(&f.name, &f.parameters, &f.args, f.over.is_some()),
        _ => VisitedParts::Other,
    }
}

/// What the gates read of an expression: every expression in it.
pub open spec fn expr_model(expr: ast::Expr) -> ExprModel {
    ExprModel { visited: expressions_in(expr).map_values(|e: ast::Expr| visited_model(e)) }
}

/// How a call spells its arguments.
pub uninterp spec fn arguments_model(arguments: ast::FunctionArguments) -> ArgumentsKind;

/// The query that the arguments of a call are, if they are one.
pub uninterp spec fn arguments_query(arguments: ast::FunctionArguments) -> Option<ast::Query>;

/// The arguments of a call taken apart.
pub enum ArgumentsParts<'a> {
    Absent,
    Subquery(&'a ast::Query),
    List,
}

/// Tells apart the variants of `FunctionArguments`.
#[verifier::external_body]
pub(crate) fn arguments_parts<'a>(arguments: &'a ast::FunctionArguments) -> (r: ArgumentsParts<'a>)
    ensures
        arguments_model(*arguments) == (match r {
            ArgumentsParts::Absent => ArgumentsKind::Absent,
            ArgumentsParts::Subquery(_) => ArgumentsKind::Subquery,
            ArgumentsParts::List => ArgumentsKind::List,
        }),
        arguments_query(*arguments) == (match r {
            ArgumentsParts::Subquery(query) => Some(*query),
            _ => None,
        }),
{
    match arguments {
        ast::FunctionArguments::None => ArgumentsParts::Absent,
        ast::FunctionArguments::Subquery(query) => ArgumentsParts::Subquery(query),
        ast::FunctionArguments::List(_) => ArgumentsParts::List,
    }
}

/// How a call spells its arguments.
pub(crate) fn arguments_kind(arguments: &ast::FunctionArguments) -> (r: ArgumentsKind)
    ensures
        r == arguments_model(*arguments),
{
    match arguments_parts(arguments) {
        ArgumentsParts::Absent => ArgumentsKind::Absent,
        ArgumentsParts::Subquery(_) => ArgumentsKind::Subquery,
        ArgumentsParts::List => ArgumentsKind::List,
    }
}

/// An expression read as a join condition.
pub uninterp spec fn condition_model(expr: ast::Expr) -> ConditionModel;

/// A join condition taken apart, its literals as they are printed.
pub enum ConditionParts<'a> {
    Nested(&'a ast::Expr),
    Boolean(bool, String),
    Placeholder(&'a String),
    Value(String),
    IntroducedPlaceholder(&'a String, &'a String),
    Introduced(&'a String, String),
    Typed(String, &'a String),
    Binary(&'a ast::Expr, &'a ast::BinaryOperator, &'a ast::Expr),
    Other,
}

/// The model of a join condition taken apart.
pub open spec fn condition_of(parts: ConditionParts<'_>) -> ConditionModel {
    match parts {
        ConditionParts::Nested(e) => ConditionModel::Nested(Box::new(condition_model(*e))),
        ConditionParts::Boolean(b, text) => ConditionModel::Value {
            boolean: Some(b),
            placeholder: false,
            text: text@,
        },
        ConditionParts::Placeholder(held) => ConditionModel::Value {
            boolean: None,
            placeholder: true,
            text: held@,
        },
        ConditionParts::Value(text) => ConditionModel::Value {
            boolean: None,
            placeholder: false,
            text: text@,
        },
        ConditionParts::IntroducedPlaceholder(introducer, held) => ConditionModel::Introduced {
            introducer: introducer@,
            placeholder: true,
            text: held@,
        },
        ConditionParts::Introduced(introducer, text) => ConditionModel::Introduced {
            introducer: introducer@,
            placeholder: false,
            text: text@,
        },
        ConditionParts::Typed(data_type, value) => ConditionModel::Typed {
            data_type: data_type@,
            value: value@,
        },
        ConditionParts::Binary(left, operator, right) => ConditionModel::Binary {
            left: Box::new(condition_model(*left)),
            operator: binary_operator(*operator),
            right: Box::new(condition_model(*right)),
            same_operands: *left == *right,
        },
        ConditionParts::Other => ConditionModel::Other,
    }
}

/// Tells apart the variants of `Expr` that a join condition is taken apart by. A
/// placeholder is given as what it holds, which is also what `Display` prints;
/// other literals, and types, are given as `Display` prints them. Only expressions that
/// the parser built come here, some with a mark for the value of a literal.
#[verifier::external_body]
pub(crate) fn condition_parts<'a>(expr: &'a ast::Expr) -> (r: ConditionParts<'a>)
    ensures
        condition_model(*expr) == condition_of(r),
{
    match expr {
        Expr::Nested(inner) => ConditionParts::Nested(inner),
        Expr::Value(ast::Value::Boolean(b)) => ConditionParts::Boolean(*b, expr.to_string()),
        Expr::Value(ast::Value::Placeholder(held)) => ConditionParts::Placeholder(held),
        Expr::Value(value) => ConditionParts::Value(value.to_string()),
        Expr::IntroducedString { introducer, value: ast::Value::Placeholder(held) } =>
            ConditionParts::IntroducedPlaceholder(introducer, held),
        Expr::IntroducedString { introducer, value } =>
            ConditionParts::Introduced(introducer, value.to_string()),
        Expr::TypedString { data_type, value } =>
            ConditionParts::Typed(data_type.to_string(), value),
        Expr::BinaryOp { left, op, right } => ConditionParts::Binary(left, op, right),
        _ => ConditionParts::Other,
    }
}

/// Which of the operators that join conditions are taken apart by it is.
pub uninterp spec fn binary_operator(operator: ast::BinaryOperator) -> ConditionOperator;

/// Tells apart the variants of `BinaryOperator` that join conditions are taken
/// apart by.
#[verifier::external_body]
pub(crate) fn operator_kind(operator: &ast::BinaryOperator) -> (r: ConditionOperator)
    ensures
        r == binary_operator(*operator),
{
    match operator {
        ast::BinaryOperator::And => ConditionOperator::And,
        ast::BinaryOperator::Or => ConditionOperator::Or,
        ast::BinaryOperator::Eq => ConditionOperator::Eq,
        _ => ConditionOperator::Other,
    }
}

/// `==` on `Expr` is derived: it holds exactly of equal expressions.
#[verifier::external_body]
pub(crate) fn same_expression(left: &ast::Expr, right: &ast::Expr) -> (r: bool)
    ensures
        r == (*left == *right),
{
    left == right
}

/// A query with every query nested in it.
pub uninterp spec fn walk_model(query: ast::Query) -> WalkModel;

/// The queries in the body of a walked query.
pub uninterp spec fn walk_body_model(body: ast::SetExpr) -> WalkBodyModel;

/// The models of a list of queries.
pub open spec fn queries_model(queries: Seq<ast::Query>) -> Seq<QueryModel> {
    queries.map_values(|q: ast::Query| query_model(q))
}

/// Keeps a copy of every query that a walk meets.
pub struct QueryCollector {
    pub found: Vec<ast::Query>,
}

impl ast::Visitor for QueryCollector {
    type Break = ();

    /// Called by the parser's walk once for each query, before the walk goes
    /// into it.
    #[verifier::external_body]
    fn pre_visit_query(&mut self, query: &ast::Query) -> (r: ControlFlow<()>) {
        self.found.push(query.clone());
        ControlFlow::Continue(())
    }
}

/// The queries that the walk of a query meets in its WITH clause, its body, and
/// the queries that it meets in the clauses after the body.
pub struct WalkParts<'a> {
    pub in_with: Vec<ast::Query>,
    pub body: &'a ast::SetExpr,
    pub in_clauses: Vec<ast::Query>,
}

/// The derived `Visit` of `Query` hands over the query itself and then walks
/// its fields in the order in which they are declared: WITH, body, ORDER BY,
/// LIMIT, LIMIT BY, OFFSET, FETCH, locks, FOR, SETTINGS, FORMAT. In the WITH
/// clause it misses none of the queries that stand there.
#[verifier::external_body]
pub(crate) fn walk_parts<'a>(query: &'a ast::Query) -> (r: WalkParts<'a>)
    ensures
        walk_model(*query) == (WalkModel {
            query: query_model(*query),
            in_with: queries_model(r.in_with@),
            body: walk_body_model(*r.body),
            in_clauses: queries_model(r.in_clauses@),
        }),
        query_model(*query).body == body_model(*r.body),
        forall|inner: QueryModel| #[trigger]
            stands_in_with(query_model(*query).with, inner) ==> queries_model(
                r.in_with@,
            ).contains(inner),
{
    let mut with = QueryCollector { found: Vec::new() };
    let _ = query.with.visit(&mut with);
    let mut clauses = QueryCollector { found: Vec::new() };
    let _ = query.order_by.visit(&mut clauses);
    let _ = query.limit.visit(&mut clauses);
    let _ = query.limit_by.visit(&mut clauses);
    let _ = query.offset.visit(&mut clauses);
    let _ = query.fetch.visit(&mut clauses);
    let _ = query.locks.visit(&mut clauses);
    let _ = query.for_clause.visit(&mut clauses);
    let _ = query.settings.visit(&mut clauses);
    let _ = query.format_clause.visit(&mut clauses);
    WalkParts { in_with: with.found, body: &query.body, in_clauses: clauses.found }
}

/// A walked body taken apart: one query in parentheses, or the queries that the
/// walk meets in it.
pub enum WalkBodyParts<'a> {
    Parenthesized(&'a ast::Query),
    Nested(Vec<ast::Query>),
}

/// The derived `Visit` of `SetExpr` walks into the variant it is; into the
/// variant `Query` it goes as into any query. It misses none of the queries
/// that stand in the body.
#[verifier::external_body]
pub(crate) fn walk_body_parts<'a>(body: &'a ast::SetExpr) -> (r: WalkBodyParts<'a>)
    ensures
        walk_body_model(*body) == (match r {
            WalkBodyParts::Parenthesized(query) => WalkBodyModel::Parenthesized(
                Box::new(walk_model(*query)),
            ),
            WalkBodyParts::Nested(queries) => WalkBodyModel::Nested(queries_model(queries@)),
        }),
        r matches WalkBodyParts::Parenthesized(query) ==> body_model(*body) == BodyModel::Query(
            Box::new(query_model(*query)),
        ),
        r matches WalkBodyParts::Nested(queries) ==> !(body_model(*body) is Query) && forall|
            inner: QueryModel,
        | #[trigger]
            stands_in_body(body_model(*body), inner) ==> queries_model(queries@).contains(inner),
{
    match body {
        ast::SetExpr::Query(query) => WalkBodyParts::Parenthesized(query),
        _ => {
            let mut nested = QueryCollector { found: Vec::new() };
            let _ = body.visit(&mut nested);
            WalkBodyParts::Nested(nested.found)
        },
    }
}

} // verus!
