//! Laws on reading: what the parser hands back is read part for part, and the
//! classes of statements are told apart.

use sqlparser::ast;
use sqlparser::tokenizer::TokenWithLocation;
use vstd::prelude::*;

use crate::parse_error::ParserErrorModel;
use crate::reader::{
    expressions_read, parse_result, parsed_statements, querying, statements_model, without_nameless,
};
use crate::sql::{
    alter_kind, arg_model, args_model, arguments_model, arguments_query, binary_operator, blunted,
    bound_of, condition_model, condition_of, constraint_model, create_kind, create_other_kind,
    drop_kind, explained, expr_model, expressions_in, expressions_of, from_model, join_model,
    literal_model, located, located_models, name_model, operator_model, operator_of, option_model,
    parsed, parsed_tokens, printed_expr, queries_model, query_model, query_of, server_kind,
    session_kind, show_kind, statement_kind, statement_model, storage_kind, table_model, table_of,
    token_in, token_model, tokenized, tokens_of, utility_kind, visited_model, visited_of,
    write_kind, ConditionParts, OperatorParts, TableParts, VisitedParts,
};
use crate::text::lower;
use crate::tokens::{has_nameless, nameless_at, next_at};
use crate::tree::{
    CallModel, ConditionModel, JoinOperatorModel, StatementKind, TableArgsModel, TableModel,
    TokenModel, VisitedModel,
};
use crate::validate::class_name;

verus! {

// ---------------------------------------------------------------------------
// Classes of statements
// ---------------------------------------------------------------------------

/// The name under which each class of statements is refused.
pub proof fn law_classes_are_refused_by_name(kind: StatementKind)
    ensures
        kind is Listen || kind is Notify ==> class_name(kind) == "LISTEN/NOTIFY"@,
        class_name(StatementKind::Analyze) == "ANALYZE"@,
        class_name(StatementKind::ExplainTable) == "EXPLAIN TABLE"@,
        kind is Declare || kind is Fetch || kind is Close
            ==> class_name(kind) == "Cursor operations"@,
        kind is Insert || kind is InsertDirectory ==> class_name(kind) == "INSERT"@,
        class_name(StatementKind::Update) == "UPDATE"@,
        class_name(StatementKind::Delete) == "DELETE"@,
        class_name(StatementKind::Truncate) == "TRUNCATE"@,
        class_name(StatementKind::Merge) == "MERGE"@,
        class_name(StatementKind::Grant) == "GRANT"@,
        class_name(StatementKind::Revoke) == "REVOKE"@,
        kind is Copy || kind is CopyInto ==> class_name(kind) == "COPY"@,
        kind is CreateTable || kind is CreateIndex || kind is CreateView || kind is CreateSchema
            || kind is CreateDatabase || kind is CreateFunction || kind is CreateProcedure
            || kind is CreateType || kind is CreateRole || kind is CreateSequence
            || kind is CreateExtension || kind is CreateVirtualTable || kind is CreateSecret
            || kind is CreatePolicy || kind is CreateTrigger || kind is CreateMacro
            || kind is CreateStage ==> class_name(kind) == "CREATE"@,
        class_name(StatementKind::Comment) == "COMMENT"@,
        kind is AlterTable || kind is AlterIndex || kind is AlterView || kind is AlterRole
            || kind is AlterPolicy ==> class_name(kind) == "ALTER"@,
        kind is Execute || kind is Call ==> class_name(kind) == "EXECUTE/CALL"@,
        kind is Prepare || kind is Deallocate ==> class_name(kind) == "PREPARE/DEALLOCATE"@,
        kind is Drop || kind is DropFunction || kind is DropProcedure || kind is DropSecret
            || kind is DropPolicy || kind is DropTrigger ==> class_name(kind) == "DROP"@,
        kind is SetVariable || kind is SetRole || kind is SetNames || kind is SetNamesDefault
            || kind is SetTimeZone || kind is SetTransaction ==> class_name(kind) == "SET"@,
        kind is StartTransaction || kind is Commit || kind is Rollback || kind is Savepoint
            || kind is ReleaseSavepoint ==> class_name(kind) == "Transaction control"@,
        class_name(StatementKind::Use) == "USE"@,
        class_name(StatementKind::Discard) == "DISCARD"@,
        kind is AttachDatabase || kind is AttachDuckDatabase || kind is DetachDuckDatabase
            || kind is ShowFunctions || kind is ShowVariable || kind is ShowStatus
            || kind is ShowVariables || kind is ShowCreate || kind is ShowColumns
            || kind is ShowDatabases || kind is ShowSchemas || kind is ShowTables
            || kind is ShowViews || kind is ShowCollation || kind is Flush || kind is Kill
            || kind is Install || kind is Load || kind is Pragma || kind is Assert || kind is Msck
            || kind is Cache || kind is Uncache || kind is Unload || kind is OptimizeTable
            || kind is LockTables || kind is UnlockTables
            ==> class_name(kind) == "Unknown statement type"@,
{
}

/// One if it is there.
pub open spec fn counted_kind(kind: Option<StatementKind>) -> int {
    if kind is Some {
        1
    } else {
        0
    }
}

/// Each class but UNLOCK TABLES is told by exactly one of the groups, and is
/// told as itself.
pub proof fn law_each_class_is_told_once(kind: StatementKind)
    ensures
        counted_kind(utility_kind(kind)) + counted_kind(write_kind(kind)) + counted_kind(
            create_kind(kind),
        ) + counted_kind(create_other_kind(kind)) + counted_kind(alter_kind(kind)) + counted_kind(
            drop_kind(kind),
        ) + counted_kind(session_kind(kind)) + counted_kind(show_kind(kind)) + counted_kind(
            server_kind(kind),
        ) + counted_kind(storage_kind(kind)) == if kind is UnlockTables {
            0int
        } else {
            1int
        },
        utility_kind(kind) matches Some(told) ==> told == kind,
        write_kind(kind) matches Some(told) ==> told == kind,
        create_kind(kind) matches Some(told) ==> told == kind,
        create_other_kind(kind) matches Some(told) ==> told == kind,
        alter_kind(kind) matches Some(told) ==> told == kind,
        drop_kind(kind) matches Some(told) ==> told == kind,
        session_kind(kind) matches Some(told) ==> told == kind,
        show_kind(kind) matches Some(told) ==> told == kind,
        server_kind(kind) matches Some(told) ==> told == kind,
        storage_kind(kind) matches Some(told) ==> told == kind,
{
}

// ---------------------------------------------------------------------------
// Parts of statements
// ---------------------------------------------------------------------------

/// A relation is read as what it is.
pub proof fn law_relations_are_read(
    name: &ast::ObjectName,
    args: &Vec<ast::FunctionArg>,
    flag: bool,
    query: &ast::Query,
    from: &ast::TableWithJoins,
    table: &ast::TableFactor,
)
    ensures
        table_of(TableParts::Table(name, None)) == (TableModel::Table {
            name: name_model(*name),
            args: None,
        }),
        table_of(TableParts::Table(name, Some((args, flag)))) == (TableModel::Table {
            name: name_model(*name),
            args: Some(TableArgsModel { args: args_model(args@), settings: flag }),
        }),
        table_of(TableParts::Derived(query)) == TableModel::Derived(Box::new(query_model(*query))),
        table_of(TableParts::TableFunction) == TableModel::TableFunction,
        table_of(TableParts::Function(flag, name, args)) == (TableModel::Function {
            lateral: flag,
            name: name_model(*name),
            arguments: args_model(args@),
        }),
        table_of(TableParts::Unnest) == TableModel::Unnest,
        table_of(TableParts::JsonTable) == TableModel::JsonTable,
        table_of(TableParts::NestedJoin(from)) == TableModel::NestedJoin(
            Box::new(from_model(*from)),
        ),
        table_of(TableParts::Pivot(table)) == TableModel::Pivot(Box::new(table_model(*table))),
        table_of(TableParts::Unpivot(table)) == TableModel::Unpivot(Box::new(table_model(*table))),
        table_of(TableParts::MatchRecognize(table)) == TableModel::MatchRecognize(
            Box::new(table_model(*table)),
        ),
{
}

/// A join is read as its relation and its operator, an operator as what it is.
pub proof fn law_joins_are_read(
    table: &ast::TableFactor,
    operator: &ast::JoinOperator,
    c: &ast::JoinConstraint,
)
    ensures
        join_model((table, operator)).relation == table_model(*table),
        join_model((table, operator)).operator == operator_model(*operator),
        operator_of(OperatorParts::Inner(c)) == JoinOperatorModel::Inner(constraint_model(*c)),
        operator_of(OperatorParts::LeftOuter(c)) == JoinOperatorModel::LeftOuter(
            constraint_model(*c),
        ),
        operator_of(OperatorParts::RightOuter(c)) == JoinOperatorModel::RightOuter(
            constraint_model(*c),
        ),
        operator_of(OperatorParts::FullOuter(c)) == JoinOperatorModel::FullOuter(
            constraint_model(*c),
        ),
        operator_of(OperatorParts::CrossJoin) == JoinOperatorModel::CrossJoin,
        operator_of(OperatorParts::LeftSemi(c)) == JoinOperatorModel::LeftSemi(
            constraint_model(*c),
        ),
        operator_of(OperatorParts::RightSemi(c)) == JoinOperatorModel::RightSemi(
            constraint_model(*c),
        ),
        operator_of(OperatorParts::LeftAnti(c)) == JoinOperatorModel::LeftAnti(
            constraint_model(*c),
        ),
        operator_of(OperatorParts::RightAnti(c)) == JoinOperatorModel::RightAnti(
            constraint_model(*c),
        ),
        operator_of(OperatorParts::CrossApply) == JoinOperatorModel::CrossApply,
        operator_of(OperatorParts::OuterApply) == JoinOperatorModel::OuterApply,
        operator_of(OperatorParts::AsOf(c)) == JoinOperatorModel::AsOf(constraint_model(*c)),
{
}

/// A visited expression is read as what it is, and its query is the one that
/// stands in it.
pub proof fn law_visited_expressions_are_read(
    query: &ast::Query,
    name: &ast::ObjectName,
    a: &ast::FunctionArguments,
    b: &ast::FunctionArguments,
    over: bool,
)
    ensures
        visited_of(VisitedParts::Subquery(query)) == VisitedModel::Subquery,
        visited_of(VisitedParts::Exists(query)) == VisitedModel::Exists,
        visited_of(VisitedParts::InSubquery(query)) == VisitedModel::InSubquery,
        visited_of(VisitedParts::AnyOp) == VisitedModel::AnyOp,
        visited_of(VisitedParts::AllOp) == VisitedModel::AllOp,
        visited_of(VisitedParts::Other) == VisitedModel::Other,
        visited_of(VisitedParts::Call(name, a, b, over)) == VisitedModel::Call(
            CallModel {
                name: name_model(*name),
                parameters: arguments_model(*a),
                arguments: arguments_model(*b),
                over,
            },
        ),
        query_of(VisitedParts::Subquery(query)) == Some(*query),
        query_of(VisitedParts::Exists(query)) == Some(*query),
        query_of(VisitedParts::InSubquery(query)) == Some(*query),
        query_of(VisitedParts::Call(name, a, b, over)) == arguments_query(*b),
        query_of(VisitedParts::AnyOp) is None,
        query_of(VisitedParts::AllOp) is None,
        query_of(VisitedParts::Other) is None,
{
}

/// A join condition is read as what it is.
pub proof fn law_conditions_are_read(
    a: &ast::Expr,
    operator: &ast::BinaryOperator,
    b: &ast::Expr,
    flag: bool,
    text: String,
    kept: &String,
    held: &String,
)
    ensures
        condition_of(ConditionParts::Nested(a)) == ConditionModel::Nested(
            Box::new(condition_model(*a)),
        ),
        condition_of(ConditionParts::Boolean(flag, text)) == (ConditionModel::Value {
            boolean: Some(flag),
            placeholder: false,
            text: text@,
        }),
        condition_of(ConditionParts::Placeholder(held)) == (ConditionModel::Value {
            boolean: None,
            placeholder: true,
            text: held@,
        }),
        condition_of(ConditionParts::Value(text)) == (ConditionModel::Value {
            boolean: None,
            placeholder: false,
            text: text@,
        }),
        condition_of(ConditionParts::IntroducedPlaceholder(kept, held)) == (
        ConditionModel::Introduced { introducer: kept@, placeholder: true, text: held@ }),
        condition_of(ConditionParts::Introduced(kept, text)) == (ConditionModel::Introduced {
            introducer: kept@,
            placeholder: false,
            text: text@,
        }),
        condition_of(ConditionParts::Typed(text, held)) == (ConditionModel::Typed {
            data_type: text@,
            value: held@,
        }),
        condition_of(ConditionParts::Binary(a, operator, b)) == (ConditionModel::Binary {
            left: Box::new(condition_model(*a)),
            operator: binary_operator(*operator),
            right: Box::new(condition_model(*b)),
            same_operands: *a == *b,
        }),
        condition_of(ConditionParts::Other) == ConditionModel::Other,
{
}

/// Lists are read item for item.
pub proof fn law_lists_are_read(
    args: Seq<ast::FunctionArg>,
    queries: Seq<ast::Query>,
    statements: Seq<ast::Statement>,
    expr: ast::Expr,
    i: int,
)
    ensures
        args_model(args).len() == args.len(),
        0 <= i < args.len() ==> args_model(args)[i] == arg_model(args[i]),
        queries_model(queries).len() == queries.len(),
        0 <= i < queries.len() ==> queries_model(queries)[i] == query_model(queries[i]),
        statements_model(statements).len() == statements.len(),
        0 <= i < statements.len() ==> statements_model(statements)[i] == statement_model(
            statements[i],
        ),
        expr_model(expr).visited.len() == expressions_in(expr).len(),
        0 <= i < expressions_in(expr).len() ==> expr_model(expr).visited[i] == visited_model(
            expressions_in(expr)[i],
        ),
{
}

/// An operand of LIMIT or OFFSET is read as its literal and its text, an option
/// of EXPLAIN as its name and its argument.
pub proof fn law_operands_are_read(expr: &ast::Expr, name: &String)
    ensures
        bound_of(None) is None,
        bound_of(Some(expr)) is Some,
        bound_of(Some(expr))->0.literal == literal_model(*expr),
        bound_of(Some(expr))->0.text == printed_expr(*expr),
        option_model((name, None)).name == name@,
        option_model((name, None)).arg is None,
        option_model((name, Some(expr))).name == name@,
        option_model((name, Some(expr))).arg == Some(literal_model(*expr)),
{
}

// ---------------------------------------------------------------------------
// Texts
// ---------------------------------------------------------------------------

/// The tokens between the two places are white space.
pub open spec fn only_white_between(tokens: Seq<TokenModel>, a: int, b: int) -> bool {
    forall|k: int| a < k < b ==> #[trigger] tokens[k] is Whitespace
}

/// The token is a keyword: a word without quotes, whatever the case of its
/// letters.
pub open spec fn is_keyword(token: TokenModel, keyword: Seq<char>) -> bool {
    token matches TokenModel::Word { value, quoted } && !quoted && lower(value) == lower(keyword)
}

/// GRANTED stands at `j` and BY after it, and what comes next, if anything
/// does, is neither a word nor a text in quotes.
pub open spec fn names_nobody(tokens: Seq<TokenModel>, j: int, second: int) -> bool {
    &&& 0 <= j < second < tokens.len()
    &&& is_keyword(tokens[j], "GRANTED"@)
    &&& only_white_between(tokens, j, second)
    &&& is_keyword(tokens[second], "BY"@)
    &&& forall|n: int|
        second < n < tokens.len() && !(tokens[n] is Whitespace) && only_white_between(tokens, second, n)
            ==> !(#[trigger] tokens[n] is Word || tokens[n] is SingleQuotedString
            || tokens[n] is DoubleQuotedString)
}

/// The next token is the first that is not white space.
proof fn lemma_next_at(tokens: Seq<TokenModel>, i: int)
    requires
        0 <= i <= tokens.len() + 1,
    ensures
        i <= tokens.len() ==> i <= next_at(tokens, i) <= tokens.len(),
        i > tokens.len() ==> next_at(tokens, i) == tokens.len(),
        next_at(tokens, i) < tokens.len() ==> !(tokens[next_at(tokens, i)] is Whitespace),
        only_white_between(tokens, i - 1, next_at(tokens, i)),
    decreases tokens.len() - i,
{
    if i < tokens.len() && tokens[i] is Whitespace {
        lemma_next_at(tokens, i + 1);
        assert forall|k: int| i - 1 < k < next_at(tokens, i) implies #[trigger] tokens[k] is Whitespace by {
            if k > i {
                assert(i + 1 - 1 < k);
            }
        }
    }
}

/// A nameless grantor is GRANTED BY with no name after it.
pub proof fn law_nameless_grantors(tokens: Seq<TokenModel>, j: int)
    ensures
        nameless_at(tokens, j) <==> exists|second: int| #[trigger] names_nobody(tokens, j, second),
        has_nameless(tokens) <==> exists|at: int, second: int| #[trigger] names_nobody(tokens, at, second),
{
    lemma_nameless(tokens, j);
    if has_nameless(tokens) {
        let at = choose|at: int| #[trigger] nameless_at(tokens, at);
        lemma_nameless(tokens, at);
        let second = choose|second: int| #[trigger] names_nobody(tokens, at, second);
        assert(names_nobody(tokens, at, second));
    }
    if exists|at: int, second: int| #[trigger] names_nobody(tokens, at, second) {
        let (at, second) = choose|at: int, second: int| #[trigger] names_nobody(tokens, at, second);
        lemma_nameless(tokens, at);
        assert(nameless_at(tokens, at));
    }
}

/// At one place.
proof fn lemma_nameless(tokens: Seq<TokenModel>, j: int)
    ensures
        nameless_at(tokens, j) <==> exists|second: int| #[trigger] names_nobody(tokens, j, second),
{
    if nameless_at(tokens, j) {
        let second = next_at(tokens, j + 1);
        lemma_next_at(tokens, j + 1);
        lemma_next_at(tokens, second + 1);
        let name = next_at(tokens, second + 1);
        assert forall|n: int|
            second < n < tokens.len() && !(tokens[n] is Whitespace) && only_white_between(
                tokens,
                second,
                n,
            ) implies !(#[trigger] tokens[n] is Word || tokens[n] is SingleQuotedString
            || tokens[n] is DoubleQuotedString) by {
            if n < name {
                assert(tokens[n] is Whitespace);
            } else if n > name {
                assert(tokens[name] is Whitespace);
            }
        }
        assert(names_nobody(tokens, j, second));
    }
    if exists|second: int| #[trigger] names_nobody(tokens, j, second) {
        let second = choose|second: int| #[trigger] names_nobody(tokens, j, second);
        lemma_next_at(tokens, j + 1);
        let next = next_at(tokens, j + 1);
        if next < second {
            assert(tokens[next] is Whitespace);
        } else if next > second {
            assert(tokens[second] is Whitespace);
        }
        lemma_next_at(tokens, second + 1);
        let name = next_at(tokens, second + 1);
        if name < tokens.len() {
            assert(only_white_between(tokens, second, name));
            assert(!(tokens[name] is Word));
        }
    }
}

/// A text is parsed as it stands unless a grantor in it is nameless. Then the
/// GRANTED of each nameless grantor is blunted, and no other token is touched.
pub proof fn law_texts_are_parsed(sql: Seq<char>)
    ensures
        tokenized(sql) is Err ==> parse_result(sql) == parsed(sql),
        tokens_of(sql) is Ok && !has_nameless(tokens_of(sql)->Ok_0) ==> parse_result(sql) == parsed(
            sql,
        ),
        tokens_of(sql) is Ok && has_nameless(tokens_of(sql)->Ok_0) && located(sql) is Ok
            ==> parse_result(sql) == parsed_tokens(without_nameless(located(sql)->Ok_0)),
        tokens_of(sql) is Ok && has_nameless(tokens_of(sql)->Ok_0) && located(sql) is Err
            ==> parse_result(sql) is Err && parse_result(sql)->Err_0
            == ParserErrorModel::TokenizerError(located(sql)->Err_0),
{
}

/// Which tokens are blunted.
pub proof fn law_only_nameless_grantors_are_blunted(tokens: Seq<TokenWithLocation>, i: int)
    requires
        0 <= i < tokens.len(),
    ensures
        without_nameless(tokens).len() == tokens.len(),
        located_models(tokens).len() == tokens.len(),
        located_models(tokens)[i] == token_model(token_in(tokens[i])),
        nameless_at(located_models(tokens), i) ==> without_nameless(tokens)[i] == blunted(
            tokens[i],
        ),
        !nameless_at(located_models(tokens), i) ==> without_nameless(tokens)[i] == tokens[i],
{
}

/// The tokens and the statements of a text are read one for one, and an error
/// is passed on as it is.
pub proof fn law_texts_are_read(sql: Seq<char>, i: int)
    ensures
        tokens_of(sql) is Ok <==> tokenized(sql) is Ok,
        tokenized(sql) matches Ok(tokens) ==> tokens_of(sql)->Ok_0.len() == tokens.len() && (0 <= i
            < tokens.len() ==> tokens_of(sql)->Ok_0[i] == token_model(tokens[i])),
        tokenized(sql) is Err ==> tokens_of(sql)->Err_0 == tokenized(sql)->Err_0,
        parsed_statements(sql) is Ok <==> parse_result(sql) is Ok,
        parse_result(sql) matches Ok(statements) ==> parsed_statements(sql)->Ok_0.len()
            == statements.len() && (0 <= i < statements.len() ==> parsed_statements(sql)->Ok_0[i]
            == statement_model(statements[i])),
        parse_result(sql) is Err ==> parsed_statements(sql)->Err_0 == parse_result(sql)->Err_0,
{
}

/// The expressions of a text are those of its first statement, or of what that
/// explains.
pub proof fn law_expressions_are_those_of_the_query(sql: Seq<char>, statement: ast::Statement)
    ensures
        statement_kind(statement) is Explain ==> querying(statement) == explained(statement),
        !(statement_kind(statement) is Explain) ==> querying(statement) == statement,
        parse_result(sql) matches Ok(statements) ==> expressions_read(sql) == expressions_of(
            seq![querying(statements[0])],
        ),
{
}

} // verus!
