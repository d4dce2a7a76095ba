//! The whole gate: one bounded, read-only statement, or the first reason why a
//! text is not one.

use sqlparser::ast;
use vstd::prelude::*;

use crate::aggregates::{alias_refusal, validate_aggregate_aliases};
use crate::bounds::query_limit_refusal;
use crate::gates::{
    cartesian_law, complete, first_refusal, nested, offset_law, projection_law, read_only_law,
    sort_law, statement_complete, walked,
};
use crate::laws::{accepted_walk, law_accepted_only_reads, law_accepted_walked, query_admitted};
use crate::parse_error::{advice, error_text, humanize_parse_error, lowercased};
use crate::policy::{Policy, PolicyModel};
use crate::reader::{
    expressions_read, parse_result, parsed_statements, querying, read_sql, read_tokens, tokens_read,
    well_read,
};
use crate::refusal::{
    around, class_refused, label, or_else, prefixed, refusal, refused, statement_label,
};
use crate::relations::{kind_name, statement_type_name};
use crate::sql::{query_model, statement_model, subquery_of, tokens_of};
use crate::text::{eq_ignore_case, same_ignoring_case};
use crate::tokens::token_refusal;
use crate::tree::{
    option_models, stands_in_query, statement_models, ExplainOptionModel, ExplainOptionNode,
    LiteralModel, LiteralNode, QueryModel, QueryWalk, StatementKind, StatementModel, StatementNode,
    TokenModel, TokenNode, WalkModel,
};

verus! {

/// The name under which a class of statements is refused. Every class that
/// writes, defines, grants, sets up a session, controls a transaction or moves a
/// cursor has one.
pub open spec fn class_name(kind: StatementKind) -> Seq<char> {
    match kind {
        StatementKind::Listen
        | StatementKind::Notify => "LISTEN/NOTIFY"@,
        StatementKind::Analyze => "ANALYZE"@,
        StatementKind::ExplainTable => "EXPLAIN TABLE"@,
        StatementKind::Declare
        | StatementKind::Fetch
        | StatementKind::Close => "Cursor operations"@,
        StatementKind::Insert
        | StatementKind::InsertDirectory => "INSERT"@,
        StatementKind::Update => "UPDATE"@,
        StatementKind::Delete => "DELETE"@,
        StatementKind::Truncate => "TRUNCATE"@,
        StatementKind::Merge => "MERGE"@,
        StatementKind::Grant => "GRANT"@,
        StatementKind::Revoke => "REVOKE"@,
        StatementKind::Copy
        | StatementKind::CopyInto => "COPY"@,
        StatementKind::CreateTable
        | StatementKind::CreateIndex
        | StatementKind::CreateView
        | StatementKind::CreateSchema
        | StatementKind::CreateDatabase
        | StatementKind::CreateFunction
        | StatementKind::CreateProcedure
        | StatementKind::CreateType
        | StatementKind::CreateRole
        | StatementKind::CreateSequence
        | StatementKind::CreateExtension
        | StatementKind::CreateVirtualTable
        | StatementKind::CreateSecret
        | StatementKind::CreatePolicy
        | StatementKind::CreateTrigger
        | StatementKind::CreateMacro
        | StatementKind::CreateStage => "CREATE"@,
        StatementKind::Comment => "COMMENT"@,
        StatementKind::AlterTable
        | StatementKind::AlterIndex
        | StatementKind::AlterView
        | StatementKind::AlterRole
        | StatementKind::AlterPolicy => "ALTER"@,
        StatementKind::Execute
        | StatementKind::Call => "EXECUTE/CALL"@,
        StatementKind::Prepare
        | StatementKind::Deallocate => "PREPARE/DEALLOCATE"@,
        StatementKind::Drop
        | StatementKind::DropFunction
        | StatementKind::DropProcedure
        | StatementKind::DropSecret
        | StatementKind::DropPolicy
        | StatementKind::DropTrigger => "DROP"@,
        StatementKind::SetVariable
        | StatementKind::SetRole
        | StatementKind::SetNames
        | StatementKind::SetNamesDefault
        | StatementKind::SetTimeZone
        | StatementKind::SetTransaction => "SET"@,
        StatementKind::StartTransaction
        | StatementKind::Commit
        | StatementKind::Rollback
        | StatementKind::Savepoint
        | StatementKind::ReleaseSavepoint => "Transaction control"@,
        StatementKind::Use => "USE"@,
        StatementKind::Discard => "DISCARD"@,
        StatementKind::AttachDatabase
        | StatementKind::AttachDuckDatabase
        | StatementKind::DetachDuckDatabase
        | StatementKind::ShowFunctions
        | StatementKind::ShowVariable
        | StatementKind::ShowStatus
        | StatementKind::ShowVariables
        | StatementKind::ShowCreate
        | StatementKind::ShowColumns
        | StatementKind::ShowDatabases
        | StatementKind::ShowSchemas
        | StatementKind::ShowTables
        | StatementKind::ShowViews
        | StatementKind::ShowCollation
        | StatementKind::Flush
        | StatementKind::Kill
        | StatementKind::Install
        | StatementKind::Load
        | StatementKind::Pragma
        | StatementKind::Assert
        | StatementKind::Msck
        | StatementKind::Cache
        | StatementKind::Uncache
        | StatementKind::Unload
        | StatementKind::OptimizeTable
        | StatementKind::LockTables
        | StatementKind::UnlockTables => "Unknown statement type"@,
        StatementKind::Query | StatementKind::Explain => kind_name(kind),
    }
}

/// The option makes EXPLAIN execute the statement.
pub open spec fn option_executes(option: ExplainOptionModel) -> bool {
    same_ignoring_case(option.name, "analyze"@) && option.arg != Some(LiteralModel::Boolean(false))
}

/// An option of the list makes EXPLAIN execute the statement.
pub open spec fn list_executes(list: Seq<ExplainOptionModel>) -> bool {
    exists|i: int| 0 <= i < list.len() && option_executes(#[trigger] list[i])
}

/// There is an option list, and an option of it makes EXPLAIN execute the
/// statement.
pub open spec fn options_execute(options: Option<Seq<ExplainOptionModel>>) -> bool {
    match options {
        Some(list) => list_executes(list),
        None => false,
    }
}

/// The class of a statement.
pub open spec fn kind_of(statement: StatementModel) -> StatementKind {
    match statement {
        StatementModel::Query(_) => StatementKind::Query,
        StatementModel::Explain { .. } => StatementKind::Explain,
        StatementModel::Other(kind) => kind,
    }
}

/// The refusal, if there is one, with `before` in front.
pub open spec fn labelled(before: Seq<char>, reason: Option<Seq<char>>) -> Option<Seq<char>> {
    match reason {
        Some(text) => Some(before + text),
        None => None,
    }
}

/// Why the work that a query asks for is not bounded.
pub open spec fn work_refusal(p: PolicyModel, walk: WalkModel) -> Option<Seq<char>> {
    or_else(
        query_limit_refusal(p, walk.query),
        or_else(
            first_refusal(offset_law(p), walked(walk)),
            or_else(
                first_refusal(sort_law(p), nested(walk)),
                or_else(
                    first_refusal(projection_law(p), walked(walk)),
                    first_refusal(cartesian_law(p), walked(walk)),
                ),
            ),
        ),
    )
}

/// Why a query that stands as the whole statement is refused.
pub open spec fn select_statement_refusal(p: PolicyModel, index: nat, walk: WalkModel) -> Option<
    Seq<char>,
> {
    or_else(
        labelled(statement_label(index), first_refusal(read_only_law(p), walked(walk))),
        or_else(
            if p.require_aggregate_aliases {
                alias_refusal(walk.query)
            } else {
                None
            },
            work_refusal(p, walk),
        ),
    )
}

/// Why an EXPLAIN is refused.
pub open spec fn explain_refusal(
    p: PolicyModel,
    index: nat,
    statement: StatementModel,
    analyze: bool,
    options: Option<Seq<ExplainOptionModel>>,
) -> Option<Seq<char>> {
    if analyze || options_execute(options) {
        Some(
            statement_label(index)
                + "EXPLAIN ANALYZE is not allowed (it executes the query). Use EXPLAIN without ANALYZE."@,
        )
    } else {
        match statement {
            StatementModel::Query(walk) => or_else(
                labelled(
                    statement_label(index) + "EXPLAIN "@,
                    first_refusal(read_only_law(p), walked(*walk)),
                ),
                work_refusal(p, *walk),
            ),
            _ => Some(
                statement_label(index)
                    + "EXPLAIN can only be used with read-only queries. EXPLAIN "@ + kind_name(
                    kind_of(statement),
                ) + " is not allowed."@,
            ),
        }
    }
}

/// Why a statement is refused.
pub open spec fn statement_refusal(p: PolicyModel, index: nat, statement: StatementModel) -> Option<
    Seq<char>,
> {
    match statement {
        StatementModel::Query(walk) => select_statement_refusal(p, index, *walk),
        StatementModel::Explain { statement, analyze, options } => explain_refusal(
            p,
            index,
            *statement,
            analyze,
            options,
        ),
        StatementModel::Other(kind) => Some(class_refused(index, class_name(kind))),
    }
}

/// Why parsed statements, with the tokens of the same text, are refused.
pub open spec fn statements_refusal(
    p: PolicyModel,
    statements: Seq<StatementModel>,
    tokens: Result<Seq<TokenModel>, Seq<char>>,
) -> Option<Seq<char>> {
    if statements.len() == 0 {
        Some("Empty query"@)
    } else {
        match tokens {
            Err(e) => Some("Failed to tokenize SQL for contract checks: "@ + e),
            Ok(list) => or_else(
                token_refusal(p, list),
                if statements.len() != 1 {
                    Some(
                        "Only a single statement is supported. Use a single SELECT (or SELECT with CTEs/UNION) query."@,
                    )
                } else {
                    statement_refusal(p, 0, statements[0])
                },
            ),
        }
    }
}

/// Why a text is refused.
pub open spec fn sql_refusal(p: PolicyModel, sql: Seq<char>) -> Option<Seq<char>> {
    match parsed_statements(sql) {
        Err(e) => Some(advice(error_text(e), lowercased(sql))),
        Ok(statements) => statements_refusal(p, statements, tokens_of(sql)),
    }
}

/// The name under which a class of statements is refused.
fn refused_class(kind: StatementKind) -> (r: &'static str)
    ensures
        r@ == class_name(kind),
{
    match kind {
        StatementKind::Listen
        | StatementKind::Notify => "LISTEN/NOTIFY",
        StatementKind::Analyze => "ANALYZE",
        StatementKind::ExplainTable => "EXPLAIN TABLE",
        StatementKind::Declare
        | StatementKind::Fetch
        | StatementKind::Close => "Cursor operations",
        StatementKind::Insert
        | StatementKind::InsertDirectory => "INSERT",
        StatementKind::Update => "UPDATE",
        StatementKind::Delete => "DELETE",
        StatementKind::Truncate => "TRUNCATE",
        StatementKind::Merge => "MERGE",
        StatementKind::Grant => "GRANT",
        StatementKind::Revoke => "REVOKE",
        StatementKind::Copy
        | StatementKind::CopyInto => "COPY",
        StatementKind::CreateTable
        | StatementKind::CreateIndex
        | StatementKind::CreateView
        | StatementKind::CreateSchema
        | StatementKind::CreateDatabase
        | StatementKind::CreateFunction
        | StatementKind::CreateProcedure
        | StatementKind::CreateType
        | StatementKind::CreateRole
        | StatementKind::CreateSequence
        | StatementKind::CreateExtension
        | StatementKind::CreateVirtualTable
        | StatementKind::CreateSecret
        | StatementKind::CreatePolicy
        | StatementKind::CreateTrigger
        | StatementKind::CreateMacro
        | StatementKind::CreateStage => "CREATE",
        StatementKind::Comment => "COMMENT",
        StatementKind::AlterTable
        | StatementKind::AlterIndex
        | StatementKind::AlterView
        | StatementKind::AlterRole
        | StatementKind::AlterPolicy => "ALTER",
        StatementKind::Execute
        | StatementKind::Call => "EXECUTE/CALL",
        StatementKind::Prepare
        | StatementKind::Deallocate => "PREPARE/DEALLOCATE",
        StatementKind::Drop
        | StatementKind::DropFunction
        | StatementKind::DropProcedure
        | StatementKind::DropSecret
        | StatementKind::DropPolicy
        | StatementKind::DropTrigger => "DROP",
        StatementKind::SetVariable
        | StatementKind::SetRole
        | StatementKind::SetNames
        | StatementKind::SetNamesDefault
        | StatementKind::SetTimeZone
        | StatementKind::SetTransaction => "SET",
        StatementKind::StartTransaction
        | StatementKind::Commit
        | StatementKind::Rollback
        | StatementKind::Savepoint
        | StatementKind::ReleaseSavepoint => "Transaction control",
        StatementKind::Use => "USE",
        StatementKind::Discard => "DISCARD",
        StatementKind::AttachDatabase
        | StatementKind::AttachDuckDatabase
        | StatementKind::DetachDuckDatabase
        | StatementKind::ShowFunctions
        | StatementKind::ShowVariable
        | StatementKind::ShowStatus
        | StatementKind::ShowVariables
        | StatementKind::ShowCreate
        | StatementKind::ShowColumns
        | StatementKind::ShowDatabases
        | StatementKind::ShowSchemas
        | StatementKind::ShowTables
        | StatementKind::ShowViews
        | StatementKind::ShowCollation
        | StatementKind::Flush
        | StatementKind::Kill
        | StatementKind::Install
        | StatementKind::Load
        | StatementKind::Pragma
        | StatementKind::Assert
        | StatementKind::Msck
        | StatementKind::Cache
        | StatementKind::Uncache
        | StatementKind::Unload
        | StatementKind::OptimizeTable
        | StatementKind::LockTables
        | StatementKind::UnlockTables => "Unknown statement type",
        StatementKind::Query | StatementKind::Explain => statement_type_name(kind),
    }
}

/// Whether an option makes EXPLAIN execute the statement.
fn analyze_in_options(options: &Option<Vec<ExplainOptionNode>>) -> (r: bool)
    ensures
        r == options_execute(
            match *options {
                Some(list) => Some(option_models(list@)),
                None => None,
            },
        ),
{
    match options {
        None => false,
        Some(list) => {
            let ghost all = option_models(list@);
            let mut i: usize = 0;
            while i < list.len()
                invariant
                    i <= list.len(),
                    *options == Some(*list),
                    all == option_models(list@),
                    forall|j: int| 0 <= j < i ==> !option_executes(#[trigger] all[j]),
                decreases list.len() - i,
            {
                assert(all[i as int] == list@[i as int].model());
                if eq_ignore_case(list[i].name.as_str(), "analyze") {
                    let executes = match &list[i].arg {
                        // `EXPLAIN (ANALYZE)` or `EXPLAIN (ANALYZE TRUE)` executes.
                        None => true,
                        // Explicit `ANALYZE FALSE` does not execute.
                        Some(LiteralNode::Boolean(value)) => *value,
                        // Conservative: treat non-literal args as enabled.
                        Some(_) => true,
                    };
                    if executes {
                        assert(list_executes(all));
                        return true;
                    }
                }
                i += 1;
            }
            false
        },
    }
}

/// The class of a statement.
fn kind_of_node(statement: &StatementNode) -> (r: StatementKind)
    ensures
        r == kind_of(statement.model()),
{
    match statement {
        StatementNode::Query(_) => StatementKind::Query,
        StatementNode::Explain { .. } => StatementKind::Explain,
        StatementNode::Other(kind) => *kind,
    }
}

impl Policy {
    /// Refuses a query whose work is not bounded.
    fn check_bounded_work(&self, walk: &QueryWalk) -> (r: Result<(), String>)
        ensures
            refusal(r) == work_refusal(self@, walk.model()),
    {
        self.check_query_limit(&walk.query)?;
        self.check_query_offsets(walk)?;
        self.check_bounded_nested_work(walk)?;
        self.check_projection_set_returning(walk)?;
        self.detect_cartesian_products(walk)
    }

    /// Refuses a statement that is not one bounded, read-only query, or a plain
    /// EXPLAIN of one. `index` counts statements from zero.
    pub fn validate_statement(&self, index: usize, statement: &StatementNode) -> (r: Result<
        (),
        String,
    >)
        requires
            index < usize::MAX,
        ensures
            refusal(r) == statement_refusal(self@, index as nat, statement.model()),
    {
        match statement {
            StatementNode::Query(walk) => {
                assert(walk.model().query == walk.query.model());
                if let Err(e) = self.check_read_only_queries(walk) {
                    return Err(prefixed(label(index).as_str(), e.as_str()));
                }
                if self.require_aggregate_aliases {
                    validate_aggregate_aliases(&walk.query)?;
                }
                self.check_bounded_work(walk)
            },
            StatementNode::Explain { statement: inner, analyze, options } => {
                // The parser keeps `EXPLAIN ANALYZE ...` as a flag, and the ANALYZE of
                // `EXPLAIN (ANALYZE, ...) ...` among the options.
                if *analyze || analyze_in_options(options) {
                    return Err(
                        prefixed(
                            label(index).as_str(),
                            "EXPLAIN ANALYZE is not allowed (it executes the query). Use EXPLAIN without ANALYZE.",
                        ),
                    );
                }
                match &**inner {
                    StatementNode::Query(walk) => {
                        assert(inner.model() == StatementModel::Query(Box::new(walk.model())));
                        if let Err(e) = self.check_read_only_queries(walk) {
                            let before = prefixed(label(index).as_str(), "EXPLAIN ");
                            return Err(prefixed(before.as_str(), e.as_str()));
                        }
                        self.check_bounded_work(walk)
                    },
                    other => {
                        assert(!(inner.model() is Query));
                        let before = prefixed(
                            label(index).as_str(),
                            "EXPLAIN can only be used with read-only queries. EXPLAIN ",
                        );
                        Err(
                            around(
                                before.as_str(),
                                statement_type_name(kind_of_node(other)),
                                " is not allowed.",
                            ),
                        )
                    },
                }
            },
            StatementNode::Other(kind) => Err(refused(index, refused_class(*kind))),
        }
    }

    /// Decides on the parsed statements of a text and on its tokens.
    pub fn validate_statements(
        &self,
        statements: &Vec<StatementNode>,
        tokens: &Result<Vec<TokenNode>, String>,
    ) -> (r: Result<(), String>)
        ensures
            refusal(r) == statements_refusal(
                self@,
                statement_models(statements@),
                tokens_read(*tokens),
            ),
    {
        if statements.len() == 0 {
            return Err("Empty query".to_string());
        }
        match tokens {
            Err(e) => {
                return Err(prefixed("Failed to tokenize SQL for contract checks: ", e.as_str()));
            },
            Ok(list) => {
                self.token_screen(list)?;
            },
        }
        // Single statement only.
        if statements.len() != 1 {
            return Err(
                "Only a single statement is supported. Use a single SELECT (or SELECT with CTEs/UNION) query.".to_string(),
            );
        }
        assert(statement_models(statements@)[0] == statements@[0].model());
        self.validate_statement(0, &statements[0])
    }

    /// Validate that a SQL string is one bounded, read-only statement.
    ///
    /// Requires a single SELECT / VALUES / TABLE or EXPLAIN-wrapped read-only
    /// statement; blocks writable CTEs, SELECT INTO, SELECT FOR UPDATE/SHARE,
    /// unbounded LIMIT/OFFSET shapes, cartesian products, and everything on
    /// the token block lists.
    pub fn validate(&self, sql: &str) -> (r: Result<(), String>)
        ensures
            refusal(r) == sql_refusal(self@, sql@),
            r is Ok ==> forall|inner: QueryModel| #[trigger]
                stands_in_query(accepted_walk(sql@).query, inner) ==> query_admitted(self@, inner),
            r is Ok ==> forall|e: ast::Expr| #[trigger]
                expressions_read(sql@).contains(e) && subquery_of(e) is Some ==> query_admitted(
                    self@,
                    query_model(subquery_of(e)->0),
                ),
    {
        match read_sql(sql) {
            Err(e) => Err(humanize_parse_error(e, sql)),
            Ok(statements) => {
                let tokens = read_tokens(sql);
                let r = self.validate_statements(&statements, &tokens);
                proof {
                    if r is Ok {
                        law_accepted_only_reads(self@, sql@);
                        let statement = parsed_statements(sql@)->Ok_0[0];
                        reveal_with_fuel(statement_complete, 2);
                        assert(statement_complete(statement));
                        assert(complete(accepted_walk(sql@)));
                        assert forall|inner: QueryModel| #[trigger]
                            stands_in_query(accepted_walk(sql@).query, inner) implies query_admitted(
                            self@,
                            inner,
                        ) by {
                            law_accepted_walked(self@, sql@, inner);
                        }
                        let parsed_one = parse_result(sql@)->Ok_0[0];
                        assert(well_read(parsed_one));
                        assert(statement_model(parsed_one) == statement);
                        assert(statement_model(querying(parsed_one)) == StatementModel::Query(
                            Box::new(accepted_walk(sql@)),
                        ));
                        assert forall|e: ast::Expr| #[trigger]
                            expressions_read(sql@).contains(e) && subquery_of(e)
                                is Some implies query_admitted(
                            self@,
                            query_model(subquery_of(e)->0),
                        ) by {
                            law_accepted_walked(self@, sql@, query_model(subquery_of(e)->0));
                        }
                    }
                }
                r
            },
        }
    }
}

} // verus!
