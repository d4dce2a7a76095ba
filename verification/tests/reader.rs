//! What is read of the parser's tree.

use pg_query_gate::reader::read_sql;
use pg_query_gate::shape::scrub_literal_expression;
use pg_query_gate::sql::kind_of_statement;
use pg_query_gate::tree::{
    ArgumentsKind, BodyNode, ConditionNode, FromNode, JoinConstraintNode, JoinOperatorNode,
    SelectItemNode, StatementKind, StatementNode, TableNode, VisitedExpr,
};
use pg_query_gate::Policy;
use sqlparser::ast::{Expr, Statement, Value};
use sqlparser::dialect::{Dialect, GenericDialect, MsSqlDialect, MySqlDialect};
use sqlparser::parser::Parser;

fn parse(dialect: &dyn Dialect, sql: &str) -> Statement {
    Parser::parse_sql(dialect, sql).unwrap().pop().unwrap()
}

fn read(sql: &str) -> StatementNode {
    let Ok(mut statements) = read_sql(sql) else { panic!("no SQL: {sql}") };
    statements.pop().unwrap()
}

fn from(sql: &str) -> FromNode {
    let StatementNode::Query(walk) = read(sql) else { panic!("no query: {sql}") };
    let BodyNode::Select(select) = walk.query.body else { panic!("no SELECT: {sql}") };
    select.from.into_iter().next().unwrap()
}

fn visited(expression: &str) -> Vec<VisitedExpr> {
    let StatementNode::Query(walk) = read(&format!("SELECT {expression}")) else {
        panic!("no query: {expression}")
    };
    let BodyNode::Select(select) = walk.query.body else { panic!("no SELECT: {expression}") };
    let Some(SelectItemNode::Unnamed(node)) = select.projection.into_iter().next() else {
        panic!("no expression: {expression}")
    };
    node.visited
}

fn condition(expression: &str) -> ConditionNode {
    let join = from(&format!("SELECT 1 FROM l JOIN r ON {expression}")).joins.pop().unwrap();
    let JoinOperatorNode::Inner(JoinConstraintNode::On(node)) = join.operator else {
        panic!("no condition: {expression}")
    };
    node
}

fn expression(sql: &str) -> Expr {
    let dialect = GenericDialect {};
    Parser::new(&dialect).try_with_sql(sql).unwrap().parse_expr().unwrap()
}

#[test]
fn relations_of_every_shape_are_read() {
    assert!(matches!(
        from("SELECT * FROM t PIVOT(sum(a) FOR m IN ('x', 'y')) AS p").relation,
        TableNode::Pivot(_)
    ));
    assert!(matches!(
        from("SELECT * FROM t UNPIVOT(a FOR m IN (x, y)) AS p").relation,
        TableNode::Unpivot(_)
    ));
    assert!(matches!(
        from("SELECT * FROM JSON_TABLE('[]', '$[*]' COLUMNS(a INT PATH '$')) AS j").relation,
        TableNode::JsonTable
    ));
    assert!(matches!(from("SELECT * FROM TABLE(f(1)) AS t").relation, TableNode::TableFunction));
    assert!(matches!(from("SELECT * FROM UNNEST(x) AS t").relation, TableNode::Unnest));
    assert!(matches!(from("SELECT * FROM (SELECT 1) AS t").relation, TableNode::Derived(_)));
    assert!(matches!(from("SELECT * FROM (a JOIN b USING (c))").relation, TableNode::NestedJoin(_)));
    let TableNode::Function { lateral, name, arguments } =
        from("SELECT * FROM LATERAL my.f(1, *)").relation
    else {
        panic!("no function")
    };
    assert!(lateral);
    assert_eq!(name.text, "my.f");
    assert_eq!(arguments.len(), 2);
    let TableNode::Table { args, .. } = from("SELECT * FROM f(1, 2)").relation else {
        panic!("no table")
    };
    let args = args.unwrap();
    assert_eq!((args.args.len(), args.settings), (2, false));
}

#[test]
fn settings_of_admitted_functions_are_refused() {
    let mut policy = Policy::default();
    policy.bounded_table_functions = vec!["f".to_string()];
    let StatementNode::Query(mut walk) = read("SELECT * FROM f(1) LIMIT 1") else {
        panic!("no query")
    };
    let BodyNode::Select(select) = &mut walk.query.body else { panic!("no SELECT") };
    let TableNode::Table { args: Some(list), .. } = &mut select.from[0].relation else {
        panic!("no call")
    };
    list.settings = true;
    assert_eq!(
        policy.validate_statement(0, &StatementNode::Query(walk)),
        Err("Statement 1: Table-valued function `f` settings are not allowed on this SQL surface.".to_string())
    );
}

#[test]
fn joins_of_every_kind_are_read() {
    let kind = |sql: &str| {
        let mut joins = from(sql).joins;
        format!("{:?}", joins.remove(0).operator)
    };
    for (join, wanted) in [
        ("JOIN b USING (c)", "Inner(Using)"),
        ("LEFT JOIN b USING (c)", "LeftOuter(Using)"),
        ("RIGHT JOIN b USING (c)", "RightOuter(Using)"),
        ("FULL JOIN b USING (c)", "FullOuter(Using)"),
        ("CROSS JOIN b", "CrossJoin"),
        ("LEFT SEMI JOIN b USING (c)", "LeftSemi(Using)"),
        ("RIGHT SEMI JOIN b USING (c)", "RightSemi(Using)"),
        ("LEFT ANTI JOIN b USING (c)", "LeftAnti(Using)"),
        ("RIGHT ANTI JOIN b USING (c)", "RightAnti(Using)"),
        ("CROSS APPLY b", "CrossApply"),
        ("OUTER APPLY b", "OuterApply"),
        ("NATURAL JOIN b", "Inner(Natural)"),
        ("JOIN b", "Inner(Absent)"),
        ("JOIN b ON x", "Inner(On(Other))"),
    ] {
        assert_eq!(kind(&format!("SELECT * FROM a {join}")), wanted);
    }
    let asof = from("SELECT * FROM a AS c ASOF JOIN b AS d MATCH_CONDITION (c.t >= d.t) ON c.x = d.x");
    assert!(matches!(
        asof.joins[0].operator,
        JoinOperatorNode::AsOf(JoinConstraintNode::On(_))
    ));
}

#[test]
fn conditions_are_read_by_their_form() {
    for (sql, wanted) in [
        ("(1)", "Nested(Value { boolean: None, placeholder: false, text: \"1\" })"),
        ("true", "Value { boolean: Some(true), placeholder: false, text: \"true\" }"),
        ("FALSE", "Value { boolean: Some(false), placeholder: false, text: \"false\" }"),
        ("'a'", "Value { boolean: None, placeholder: false, text: \"'a'\" }"),
        ("$1", "Value { boolean: None, placeholder: true, text: \"$1\" }"),
        ("date 'a'", "Typed { data_type: \"DATE\", value: \"a\" }"),
        ("a.b", "Other"),
        ("a = a", "Binary { left: Other, operator: Eq, right: Other, same_operands: true }"),
        ("a = b", "Binary { left: Other, operator: Eq, right: Other, same_operands: false }"),
        ("a AND b", "Binary { left: Other, operator: And, right: Other, same_operands: false }"),
        ("a OR b", "Binary { left: Other, operator: Or, right: Other, same_operands: false }"),
        ("a < a", "Binary { left: Other, operator: Other, right: Other, same_operands: true }"),
    ] {
        assert_eq!(format!("{:?}", condition(sql)), wanted, "for {sql}");
    }
}

#[test]
fn expressions_are_visited_to_the_bottom() {
    let all = visited("f(g(1), a IN (SELECT h(2)))");
    let VisitedExpr::Call(call) = &all[0] else { panic!("no call") };
    assert_eq!(call.name.text, "f");
    assert_eq!((call.parameters, call.arguments), (ArgumentsKind::Absent, ArgumentsKind::List));
    assert!(!call.over);
    let calls: Vec<&str> = all
        .iter()
        .filter_map(|e| match e {
            VisitedExpr::Call(call) => Some(call.name.text.as_str()),
            _ => None,
        })
        .collect();
    assert_eq!(calls, ["f", "g", "h"]);
    assert!(all.iter().any(|e| matches!(e, VisitedExpr::InSubquery)));
    for (sql, wanted) in [
        ("(SELECT 1)", "Subquery"),
        ("EXISTS (SELECT 1)", "Exists"),
        ("a = ANY (SELECT 1)", "AnyOp"),
        ("a = ALL (SELECT 1)", "AllOp"),
        ("a", "Other"),
    ] {
        assert_eq!(format!("{:?}", visited(sql)[0]), wanted);
    }
    assert!(matches!(
        &visited("CURRENT_TIMESTAMP")[0],
        VisitedExpr::Call(call) if call.arguments == ArgumentsKind::Absent
    ));
    assert!(matches!(
        &visited("ARRAY(SELECT 1)")[0],
        VisitedExpr::Call(call) if call.arguments == ArgumentsKind::Subquery
    ));
    assert!(matches!(&visited("count(*) OVER ()")[0], VisitedExpr::Call(call) if call.over));
    assert!(matches!(&visited("count(*) OVER w")[0], VisitedExpr::Call(call) if call.over));
}

#[test]
fn literals_lose_their_value_and_nothing_else_does() {
    let scrub = |sql: &str| {
        let mut e = expression(sql);
        scrub_literal_expression(&mut e);
        e.to_string()
    };
    assert_eq!(scrub("42"), "?");
    assert_eq!(scrub("true"), "?");
    assert_eq!(scrub("_latin1'a'"), "_latin1 ?");
    assert_eq!(scrub("date '2020-01-01'"), "DATE '?'");
    assert_eq!(scrub("f(1)"), "f(1)");
    assert_eq!(scrub("a"), "a");
    let mark = || Value::Placeholder("?".to_string());
    for value in [Value::Null, Value::Boolean(true), Value::Number("?".to_string(), false), mark()] {
        let mut e = Expr::Value(value);
        scrub_literal_expression(&mut e);
        assert_eq!(e, Expr::Value(mark()));
    }
    let mut e = expression("_latin1'a'");
    scrub_literal_expression(&mut e);
    assert_eq!(e, Expr::IntroducedString { introducer: "_latin1".to_string(), value: mark() });
}

#[test]
fn statement_classes_of_other_dialects_are_known() {
    assert_eq!(
        kind_of_statement(&parse(&MySqlDialect {}, "SET NAMES 'utf8'")),
        StatementKind::SetNames
    );
    assert_eq!(
        kind_of_statement(&parse(&MsSqlDialect {}, "CREATE PROCEDURE p AS BEGIN SELECT 1 END")),
        StatementKind::CreateProcedure
    );
    assert_eq!(kind_of_statement(&parse(&GenericDialect {}, "SELECT 1")), StatementKind::Query);
    assert_eq!(
        kind_of_statement(&parse(&GenericDialect {}, "EXPLAIN SELECT 1")),
        StatementKind::Explain
    );
    assert_eq!(kind_of_statement(&parse(&MySqlDialect {}, "KILL 1")), StatementKind::Kill);
}

#[test]
fn options_of_explain_are_read() {
    let statement = read("EXPLAIN (ANALYZE FALSE, verbose) SELECT 1");
    let StatementNode::Explain { analyze, options, .. } = statement else { panic!("no EXPLAIN") };
    assert!(!analyze);
    assert_eq!(
        format!("{:?}", options.unwrap()),
        "[ExplainOptionNode { name: \"ANALYZE\", arg: Some(Boolean(false)) }, ExplainOptionNode { name: \"verbose\", arg: None }]"
    );
}

#[test]
fn items_of_a_select_list_are_read() {
    let StatementNode::Query(walk) = read("SELECT a, b AS c, t.*, * FROM t") else {
        panic!("no query")
    };
    let BodyNode::Select(select) = walk.query.body else { panic!("no SELECT") };
    assert!(matches!(
        select.projection[..],
        [
            SelectItemNode::Unnamed(_),
            SelectItemNode::Aliased(_),
            SelectItemNode::QualifiedWildcard,
            SelectItemNode::Wildcard
        ]
    ));
}
