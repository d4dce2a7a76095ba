//! The read-only walk: through the WITH clause, set operations, derived tables
//! and joins of a query, down to the relations that it reads.

use vstd::prelude::*;

use crate::calls::{
    bounded_function, expression_contains_subquery, has_row_source, has_subquery,
    is_regexp_split_to_table_name, listed_lateral, names_regexp_split,
};
use crate::policy::{Policy, PolicyModel};
use crate::refusal::{around, or_else, refusal, table_function_error, table_function_refused};
use crate::tree::{
    arg_models, ArgModel, ArgNode, BodyModel, BodyNode, FromModel, FromNode, JoinModel, JoinNode,
    JoinOperatorNode, NameModel, NameNode, QueryModel, QueryNode, SelectModel, SelectNode,
    StatementKind, TableArgsModel, TableArgsNode, TableModel, TableNode,
};

verus! {

/// The name by which a class of statements is spoken of.
pub open spec fn kind_name(kind: StatementKind) -> Seq<char> {
    match kind {
        StatementKind::Query => "SELECT"@,
        StatementKind::Insert => "INSERT"@,
        StatementKind::Update => "UPDATE"@,
        StatementKind::Delete => "DELETE"@,
        StatementKind::Drop => "DROP"@,
        StatementKind::Truncate => "TRUNCATE"@,
        StatementKind::Grant => "GRANT"@,
        StatementKind::Revoke => "REVOKE"@,
        StatementKind::Copy => "COPY"@,
        StatementKind::Explain => "EXPLAIN"@,
        _ => "Unknown statement type"@,
    }
}

/// The name by which a class of statements is spoken of.
pub fn statement_type_name(kind: StatementKind) -> (r: &'static str)
    ensures
        r@ == kind_name(kind),
{
    match kind {
        StatementKind::Query => "SELECT",
        StatementKind::Insert => "INSERT",
        StatementKind::Update => "UPDATE",
        StatementKind::Delete => "DELETE",
        StatementKind::Drop => "DROP",
        StatementKind::Truncate => "TRUNCATE",
        StatementKind::Grant => "GRANT",
        StatementKind::Revoke => "REVOKE",
        StatementKind::Copy => "COPY",
        StatementKind::Explain => "EXPLAIN",
        _ => "Unknown statement type",
    }
}

/// `Table-valued function`, its name, then what is wrong with the call.
pub open spec fn table_call_message(name: NameModel, what: Seq<char>) -> Seq<char> {
    "Table-valued function `"@ + name.text + what
}

/// What is wrong with one argument of a table-valued function.
pub open spec fn arg_refusal(p: PolicyModel, name: NameModel, arg: ArgModel) -> Option<Seq<char>> {
    match arg {
        ArgModel::Expr(e) => if has_subquery(e) {
            Some(
                table_call_message(
                    name,
                    "` arguments may not contain subqueries on this SQL surface."@,
                ),
            )
        } else if has_row_source(p, e) {
            Some(
                table_call_message(
                    name,
                    "` arguments may not contain set-returning functions on this SQL surface."@,
                ),
            )
        } else {
            None
        },
        ArgModel::QualifiedWildcard | ArgModel::Wildcard => Some(
            table_call_message(
                name,
                "` arguments may not use wildcard arguments on this SQL surface."@,
            ),
        ),
    }
}

/// What is wrong with the first wrong argument of a table-valued function.
pub open spec fn args_refusal(p: PolicyModel, name: NameModel, args: Seq<ArgModel>) -> Option<
    Seq<char>,
>
    decreases args.len(),
{
    if args.len() == 0 {
        None
    } else {
        or_else(arg_refusal(p, name, args[0]), args_refusal(p, name, args.skip(1)))
    }
}

/// A table-valued function of this name may stand in FROM; some names only in
/// a safe LATERAL join.
pub open spec fn table_call_admitted(p: PolicyModel, name: NameModel, lateral: bool) -> bool {
    bounded_function(p, name) || (lateral && (names_regexp_split(name) || listed_lateral(p, name)))
}

/// What is wrong with a call of a table-valued function.
pub open spec fn table_call_refusal(
    p: PolicyModel,
    name: NameModel,
    args: Option<TableArgsModel>,
    lateral: bool,
) -> Option<Seq<char>> {
    if !table_call_admitted(p, name, lateral) {
        Some(table_function_refused(name.text))
    } else {
        match args {
            None => None,
            Some(list) => if list.settings {
                Some(
                    table_call_message(name, "` settings are not allowed on this SQL surface."@),
                )
            } else {
                args_refusal(p, name, list.args)
            },
        }
    }
}

/// The join is a CROSS JOIN with a function that is safe there.
pub open spec fn safe_lateral_join(p: PolicyModel, join: JoinModel) -> bool {
    join.operator is CrossJoin && match join.relation {
        TableModel::Function { lateral, name, .. } => lateral && (names_regexp_split(name)
            || listed_lateral(p, name)),
        TableModel::Table { name, args } => args is Some && (names_regexp_split(name)
            || listed_lateral(p, name)),
        _ => false,
    }
}

/// What is wrong with one relation in FROM.
pub open spec fn table_refusal(p: PolicyModel, table: TableModel, lateral: bool) -> Option<
    Seq<char>,
>
    decreases table,
{
    match table {
        TableModel::Table { name, args } => match args {
            Some(list) => table_call_refusal(p, name, Some(list), lateral),
            None => None,
        },
        TableModel::Function { name, arguments, .. } => or_else(
            table_call_refusal(p, name, None, lateral),
            args_refusal(p, name, arguments),
        ),
        TableModel::TableFunction => Some(table_function_refused("TABLE(...)"@)),
        TableModel::Unnest => Some(table_function_refused("UNNEST"@)),
        TableModel::JsonTable => Some(table_function_refused("JSON_TABLE"@)),
        TableModel::Derived(query) => query_refusal(p, *query),
        TableModel::NestedJoin(from) => from_refusal(p, *from),
        TableModel::Pivot(inner) => table_refusal(p, *inner, false),
        TableModel::Unpivot(inner) => table_refusal(p, *inner, false),
        TableModel::MatchRecognize(inner) => table_refusal(p, *inner, false),
    }
}

/// What is wrong with the first wrong relation among the joins.
pub open spec fn joins_refusal(p: PolicyModel, joins: Seq<JoinModel>) -> Option<Seq<char>>
    decreases joins,
{
    if joins.len() == 0 {
        None
    } else {
        or_else(
            join_refusal(p, joins[0]),
            joins_refusal(p, joins.subrange(1, joins.len() as int)),
        )
    }
}

/// What is wrong with the joined relation.
pub open spec fn join_refusal(p: PolicyModel, join: JoinModel) -> Option<Seq<char>>
    decreases join,
{
    table_refusal(p, join.relation, safe_lateral_join(p, join))
}

/// What is wrong with a relation and the joins after it.
pub open spec fn from_refusal(p: PolicyModel, from: FromModel) -> Option<Seq<char>>
    decreases from,
{
    or_else(table_refusal(p, from.relation, false), joins_refusal(p, from.joins))
}

/// What is wrong with the first wrong entry of FROM.
pub open spec fn froms_refusal(p: PolicyModel, froms: Seq<FromModel>) -> Option<Seq<char>>
    decreases froms,
{
    if froms.len() == 0 {
        None
    } else {
        or_else(
            from_refusal(p, froms[0]),
            froms_refusal(p, froms.subrange(1, froms.len() as int)),
        )
    }
}

/// Why a SELECT is not read-only.
pub open spec fn select_refusal(p: PolicyModel, select: SelectModel) -> Option<Seq<char>>
    decreases select,
{
    if select.into {
        Some("SELECT ... INTO is not allowed"@)
    } else {
        froms_refusal(p, select.from)
    }
}

/// The refusal of a data-modifying statement inside a query.
pub open spec fn modifying_refused(kind: StatementKind) -> Seq<char> {
    "data-modifying queries are not allowed (found "@ + kind_name(kind) + " inside a query)"@
}

/// Why a query body is not read-only.
pub open spec fn body_refusal(p: PolicyModel, body: BodyModel) -> Option<Seq<char>>
    decreases body,
{
    match body {
        BodyModel::Select(select) => select_refusal(p, *select),
        BodyModel::Query(query) => query_refusal(p, *query),
        BodyModel::SetOperation { left, right } => or_else(
            body_refusal(p, *left),
            body_refusal(p, *right),
        ),
        BodyModel::Values | BodyModel::Table => None,
        BodyModel::Insert(kind) | BodyModel::Update(kind) => Some(modifying_refused(kind)),
    }
}

/// Why the first query of the list that is not read-only is not.
pub open spec fn queries_refusal(p: PolicyModel, queries: Seq<QueryModel>) -> Option<Seq<char>>
    decreases queries,
{
    if queries.len() == 0 {
        None
    } else {
        or_else(
            query_refusal(p, queries[0]),
            queries_refusal(p, queries.subrange(1, queries.len() as int)),
        )
    }
}

/// Why a query is not read-only.
pub open spec fn query_refusal(p: PolicyModel, query: QueryModel) -> Option<Seq<char>>
    decreases query,
{
    if query.locks > 0 {
        Some("SELECT ... FOR UPDATE/SHARE is not allowed"@)
    } else {
        or_else(
            match query.with {
                Some(queries) => queries_refusal(p, queries),
                None => None,
            },
            body_refusal(p, query.body),
        )
    }
}

/// `Table-valued function`, its name, then what is wrong with the call.
fn table_call_error(name: &NameNode, what: &str) -> (r: String)
    ensures
        r@ == table_call_message(name.model(), what@),
{
    around("Table-valued function `", name.text.as_str(), what)
}

impl Policy {
    /// Refuses arguments of a table-valued function that are wildcards, carry
    /// a subquery, or can give back more than one row.
    pub fn validate_table_function_args(&self, name: &NameNode, args: &Vec<ArgNode>) -> (r: Result<
        (),
        String,
    >)
        ensures
            refusal(r) == args_refusal(self@, name.model(), arg_models(args@)),
    {
        let ghost all = arg_models(args@);
        let mut i: usize = 0;
        assert(all.skip(0) =~= all);
        while i < args.len()
            invariant
                i <= args.len(),
                all == arg_models(args@),
                args_refusal(self@, name.model(), all.skip(i as int)) == args_refusal(
                    self@,
                    name.model(),
                    all,
                ),
            decreases args.len() - i,
        {
            assert(all.skip(i as int)[0] == args@[i as int].model());
            assert(all.skip(i as int).skip(1) =~= all.skip(i + 1));
            match &args[i] {
                ArgNode::Expr(expr) => {
                    if expression_contains_subquery(expr) {
                        return Err(
                            table_call_error(
                                name,
                                "` arguments may not contain subqueries on this SQL surface.",
                            ),
                        );
                    }
                    if self.expression_contains_set_returning_function(expr) {
                        return Err(
                            table_call_error(
                                name,
                                "` arguments may not contain set-returning functions on this SQL surface.",
                            ),
                        );
                    }
                },
                ArgNode::QualifiedWildcard | ArgNode::Wildcard => {
                    return Err(
                        table_call_error(
                            name,
                            "` arguments may not use wildcard arguments on this SQL surface.",
                        ),
                    );
                },
            }
            i += 1;
        }
        Ok(())
    }

    /// Admits a call of a table-valued function only by name.
    pub fn validate_table_valued_function_call(
        &self,
        name: &NameNode,
        args: Option<&TableArgsNode>,
        allow_safe_lateral_function: bool,
    ) -> (r: Result<(), String>)
        ensures
            refusal(r) == table_call_refusal(
                self@,
                name.model(),
                match args {
                    Some(list) => Some(list.model()),
                    None => None,
                },
                allow_safe_lateral_function,
            ),
    {
        if self.is_bounded_table_function(name) || (allow_safe_lateral_function
            && is_regexp_split_to_table_name(name)) || (allow_safe_lateral_function
            && self.is_listed_safe_lateral(name)) {
            if let Some(list) = args {
                if list.settings {
                    return Err(
                        table_call_error(
                            name,
                            "` settings are not allowed on this SQL surface.",
                        ),
                    );
                }
                return self.validate_table_function_args(name, &list.args);
            }
            return Ok(());
        }
        Err(table_function_error(name.text.as_str()))
    }

    /// Whether the join is a CROSS JOIN with a function that is safe there.
    pub fn is_safe_lateral_function_join(&self, join: &JoinNode) -> (r: bool)
        ensures
            r == safe_lateral_join(self@, join.model()),
    {
        match &join.operator {
            JoinOperatorNode::CrossJoin => match &join.relation {
                TableNode::Function { lateral, name, .. } => *lateral && (
                is_regexp_split_to_table_name(name) || self.is_listed_safe_lateral(name)),
                TableNode::Table { name, args } => args.is_some() && (
                is_regexp_split_to_table_name(name) || self.is_listed_safe_lateral(name)),
                _ => false,
            },
            _ => false,
        }
    }

    /// Admits a relation in FROM: a plain table, an admitted table-valued
    /// function, or a shape whose own relations are admitted.
    pub fn validate_table_factor_surface(
        &self,
        factor: &TableNode,
        allow_safe_lateral_function: bool,
    ) -> (r: Result<(), String>)
        ensures
            refusal(r) == table_refusal(self@, factor.model(), allow_safe_lateral_function),
        decreases *factor,
    {
        match factor {
            TableNode::Table { name, args } => match args {
                Some(list) => self.validate_table_valued_function_call(
                    name,
                    Some(list),
                    allow_safe_lateral_function,
                ),
                None => Ok(()),
            },
            TableNode::Function { name, arguments, .. } => {
                self.validate_table_valued_function_call(name, None, allow_safe_lateral_function)?;
                self.validate_table_function_args(name, arguments)
            },
            TableNode::TableFunction => Err(table_function_error("TABLE(...)")),
            TableNode::Unnest => Err(table_function_error("UNNEST")),
            TableNode::JsonTable => Err(table_function_error("JSON_TABLE")),
            TableNode::Derived(query) => self.validate_read_only_query(query),
            TableNode::NestedJoin(from) => self.validate_table_with_joins_surface(from),
            TableNode::Pivot(table) => self.validate_table_factor_surface(table, false),
            TableNode::Unpivot(table) => self.validate_table_factor_surface(table, false),
            TableNode::MatchRecognize(table) => self.validate_table_factor_surface(table, false),
        }
    }

    /// Admits a relation and every relation joined to it.
    pub fn validate_table_with_joins_surface(&self, from: &FromNode) -> (r: Result<(), String>)
        ensures
            refusal(r) == from_refusal(self@, from.model()),
        decreases *from,
    {
        self.validate_table_factor_surface(&from.relation, false)?;
        let ghost all = from.model().joins;
        let mut i: usize = 0;
        assert(all.skip(0) =~= all);
        while i < from.joins.len()
            invariant
                i <= from.joins.len(),
                all == from.model().joins,
                table_refusal(self@, from.model().relation, false) is None,
                joins_refusal(self@, all.skip(i as int)) == joins_refusal(self@, all),
            decreases from.joins.len() - i,
        {
            let join = &from.joins[i];
            assert(all.skip(i as int)[0] == join.model());
            assert(all.skip(i as int).subrange(1, all.skip(i as int).len() as int) =~= all.skip(
                i + 1,
            ));
            assert(decreases_to!(from.joins@ => from.joins@[i as int]));
            assert(join_refusal(self@, join.model()) == table_refusal(
                self@,
                join.relation.model(),
                safe_lateral_join(self@, join.model()),
            ));
            self.validate_table_factor_surface(
                &join.relation,
                self.is_safe_lateral_function_join(join),
            )?;
            i += 1;
        }
        Ok(())
    }

    /// Refuses SELECT INTO, and relations that are not admitted.
    pub fn validate_read_only_select(&self, select: &SelectNode) -> (r: Result<(), String>)
        ensures
            refusal(r) == select_refusal(self@, select.model()),
        decreases *select,
    {
        if select.into {
            return Err("SELECT ... INTO is not allowed".to_string());
        }
        let ghost all = select.model().from;
        let mut i: usize = 0;
        assert(all.skip(0) =~= all);
        while i < select.from.len()
            invariant
                i <= select.from.len(),
                !select.into,
                all == select.model().from,
                froms_refusal(self@, all.skip(i as int)) == froms_refusal(self@, all),
            decreases select.from.len() - i,
        {
            assert(all.skip(i as int)[0] == select.from@[i as int].model());
            assert(all.skip(i as int).subrange(1, all.skip(i as int).len() as int) =~= all.skip(
                i + 1,
            ));
            self.validate_table_with_joins_surface(&select.from[i])?;
            i += 1;
        }
        Ok(())
    }

    /// Refuses a query body that is, or holds, anything but reads.
    pub fn validate_read_only_set_expr(&self, body: &BodyNode) -> (r: Result<(), String>)
        ensures
            refusal(r) == body_refusal(self@, body.model()),
        decreases *body,
    {
        match body {
            BodyNode::Select(select) => self.validate_read_only_select(select),
            BodyNode::Query(query) => self.validate_read_only_query(query),
            BodyNode::SetOperation { left, right } => {
                self.validate_read_only_set_expr(left)?;
                self.validate_read_only_set_expr(right)
            },
            BodyNode::Values | BodyNode::Table => Ok(()),
            BodyNode::Insert(kind) | BodyNode::Update(kind) => Err(
                around(
                    "data-modifying queries are not allowed (found ",
                    statement_type_name(*kind),
                    " inside a query)",
                ),
            ),
        }
    }

    /// Refuses a query that locks rows or is not read-only all through.
    pub fn validate_read_only_query(&self, query: &QueryNode) -> (r: Result<(), String>)
        ensures
            refusal(r) == query_refusal(self@, query.model()),
        decreases *query,
    {
        if query.locks > 0 {
            return Err("SELECT ... FOR UPDATE/SHARE is not allowed".to_string());
        }
        if let Some(queries) = &query.with {
            let ghost all = query.model().with->0;
            let mut i: usize = 0;
            assert(all.skip(0) =~= all);
            while i < queries.len()
                invariant
                    i <= queries.len(),
                    query.locks == 0,
                    query.with == Some(*queries),
                    all == query.model().with->0,
                    queries_refusal(self@, all.skip(i as int)) == queries_refusal(self@, all),
                decreases queries.len() - i,
            {
                assert(all.skip(i as int)[0] == queries@[i as int].model());
                assert(all.skip(i as int).subrange(1, all.skip(i as int).len() as int)
                    =~= all.skip(i + 1));
                self.validate_read_only_query(&queries[i])?;
                i += 1;
            }
        }
        self.validate_read_only_set_expr(&query.body)
    }
}

} // verus!
