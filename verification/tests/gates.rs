//! Single gates on hand-made trees.

use pg_query_gate::aggregates::{
    aggregate_combinator_suffix, is_aggregate_function_name, validate_aggregate_aliases,
};
use pg_query_gate::bounds::{check_limit_value, check_offset_value};
use pg_query_gate::joins::{is_tautological_join_expr, literal_expr_fingerprint};
use pg_query_gate::reader::{read_sql, read_tokens};
use pg_query_gate::relations::statement_type_name;
use pg_query_gate::tree::{
    BodyNode, BoundNode, ConditionNode, ConditionOperator, FromNode, JoinConstraintNode, JoinNode,
    JoinOperatorNode, LiteralNode, NameNode, QueryNode, SelectItemNode, SelectNode, StatementKind,
    StatementNode, TableNode, TokenNode,
};
use pg_query_gate::Policy;

fn name(text: &str) -> NameNode {
    NameNode { parts: text.split('.').map(|p| p.to_string()).collect(), text: text.to_string() }
}

fn table(text: &str) -> TableNode {
    TableNode::Table { name: name(text), args: None }
}

fn number(n: &str) -> BoundNode {
    BoundNode { literal: LiteralNode::Number(n.to_string()), text: n.to_string() }
}

fn select(from: Vec<FromNode>) -> SelectNode {
    SelectNode { into: false, projection: vec![SelectItemNode::Wildcard], from }
}

fn joined(operator: JoinOperatorNode) -> Vec<FromNode> {
    vec![FromNode {
        relation: table("a"),
        joins: vec![JoinNode { relation: table("b"), operator }],
    }]
}

fn value(text: &str) -> ConditionNode {
    ConditionNode::Value { boolean: None, placeholder: false, text: text.to_string() }
}

fn truth(b: bool) -> ConditionNode {
    ConditionNode::Value { boolean: Some(b), placeholder: false, text: b.to_string() }
}

fn binary(
    left: ConditionNode,
    operator: ConditionOperator,
    right: ConditionNode,
    same_operands: bool,
) -> ConditionNode {
    ConditionNode::Binary {
        left: Box::new(left),
        operator,
        right: Box::new(right),
        same_operands,
    }
}

#[test]
fn tautologies_are_seen_by_their_form() {
    assert!(is_tautological_join_expr(&truth(true)));
    assert!(!is_tautological_join_expr(&truth(false)));
    assert!(!is_tautological_join_expr(&value("1")));
    assert!(is_tautological_join_expr(&ConditionNode::Nested(Box::new(truth(true)))));
    let eq = |a: &str, b: &str| binary(value(a), ConditionOperator::Eq, value(b), false);
    assert!(is_tautological_join_expr(&eq("1", "1")));
    assert!(!is_tautological_join_expr(&eq("1", "2")));
    let same = binary(ConditionNode::Other, ConditionOperator::Eq, ConditionNode::Other, true);
    assert!(is_tautological_join_expr(&same));
    let other = binary(ConditionNode::Other, ConditionOperator::Eq, ConditionNode::Other, false);
    assert!(!is_tautological_join_expr(&other));
    assert!(is_tautological_join_expr(&binary(eq("1", "1"), ConditionOperator::And, truth(true), false)));
    assert!(!is_tautological_join_expr(&binary(eq("1", "1"), ConditionOperator::And, other, false)));
    assert!(is_tautological_join_expr(&binary(
        truth(false),
        ConditionOperator::Or,
        eq("x", "x"),
        false
    )));
    assert!(!is_tautological_join_expr(&binary(
        truth(true),
        ConditionOperator::Other,
        truth(true),
        true
    )));
}

#[test]
fn fingerprints_tell_literals_apart() {
    assert_eq!(literal_expr_fingerprint(&value("1")), Some("value:1".to_string()));
    let introduced = ConditionNode::Introduced {
        placeholder: false,
        introducer: "_UTF8".to_string(),
        text: "'x'".to_string(),
    };
    assert_eq!(literal_expr_fingerprint(&introduced), Some("introduced:_utf8:'x'".to_string()));
    let typed = ConditionNode::Typed { data_type: "DATE".to_string(), value: "X".to_string() };
    let nested = ConditionNode::Nested(Box::new(typed));
    assert_eq!(literal_expr_fingerprint(&nested), Some("typed:date:X".to_string()));
    assert_eq!(literal_expr_fingerprint(&ConditionNode::Other), None);
}

#[test]
fn every_join_kind_is_judged() {
    let policy = Policy::default();
    let natural = || JoinConstraintNode::Natural;
    let absent = || JoinConstraintNode::Absent;
    let always = || JoinConstraintNode::On(truth(true));
    for (operator, shape) in [
        (JoinOperatorNode::CrossApply, "cartesian product"),
        (JoinOperatorNode::OuterApply, "cartesian product"),
        (JoinOperatorNode::RightSemi(absent()), "cartesian product"),
        (JoinOperatorNode::LeftAnti(natural()), "NATURAL JOIN"),
        (JoinOperatorNode::RightAnti(always()), "JOIN with tautological ON condition"),
        (JoinOperatorNode::AsOf(always()), "cartesian product"),
        (JoinOperatorNode::AsOf(natural()), "cartesian product"),
        (JoinOperatorNode::FullOuter(natural()), "NATURAL JOIN"),
    ] {
        let reason = policy.detect_cartesian_in_select(&select(joined(operator))).unwrap_err();
        assert!(reason.starts_with(&format!("Potential cartesian product detected: {shape}. ")));
    }
    let using = JoinOperatorNode::AsOf(JoinConstraintNode::Using);
    assert_eq!(policy.detect_cartesian_in_select(&select(joined(using))), Ok(()));
}

#[test]
fn relations_are_read_through_pivots() {
    let policy = Policy::default();
    let call = || TableNode::Unnest;
    for table in [
        TableNode::Pivot(Box::new(call())),
        TableNode::Unpivot(Box::new(call())),
        TableNode::MatchRecognize(Box::new(call())),
    ] {
        assert_eq!(
            policy.validate_table_factor_surface(&table, false),
            Err("Table-valued function `UNNEST` is not allowed on this SQL surface.".to_string())
        );
    }
    assert_eq!(
        policy.validate_table_factor_surface(&TableNode::JsonTable, false),
        Err("Table-valued function `JSON_TABLE` is not allowed on this SQL surface.".to_string())
    );
}

#[test]
fn bounds_are_judged_at_the_edge() {
    assert_eq!(check_offset_value(&number("7"), 7), Ok(()));
    assert_eq!(
        check_offset_value(&number("8"), 7),
        Err("OFFSET 8 is too large. Maximum allowed is 7.".to_string())
    );
    assert_eq!(check_limit_value(&number("18446744073709551615"), u64::MAX), Ok(()));
    assert_eq!(
        check_limit_value(&number("18446744073709551616"), u64::MAX),
        Err("Invalid LIMIT value '18446744073709551616'. LIMIT must be a positive integer.".to_string())
    );
    assert_eq!(check_limit_value(&number("+3"), 7), Ok(()));
    assert_eq!(
        check_limit_value(&number(""), 7),
        Err("Invalid LIMIT value ''. LIMIT must be a positive integer.".to_string())
    );
}

#[test]
fn combinators_follow_one_another() {
    for good in ["", "if", "merge", "mergestate", "mergestateif", "statemerge", "ornullif", "arraymapif"] {
        assert!(aggregate_combinator_suffix(good), "{good:?} is a chain");
    }
    for bad in ["i", "mergest", "ifx", "xif", "or", "mergestat", "IF"] {
        assert!(!aggregate_combinator_suffix(bad), "{bad:?} is no chain");
    }
}

#[test]
fn aggregates_are_known_by_name() {
    for good in [
        "count", "COUNT", "countIf", "sumMergeState", "any", "any_value", "argMaxIf", "stddev_pop",
        "quantileTDigest", "uniqExact", "regr_slope", "string_agg", "groupArrayMovingSum", "avgweighted",
    ] {
        assert!(is_aggregate_function_name(good), "{good:?} is an aggregate");
    }
    for bad in ["lower", "counter", "maximum", "summary", "anyone", "json", "arg", "", "if"] {
        assert!(!is_aggregate_function_name(bad), "{bad:?} is no aggregate");
    }
}

#[test]
fn tokens_are_read_with_their_quotes() {
    let tokens = read_tokens("a \"B\".'c'&(").unwrap();
    assert_eq!(
        format!("{tokens:?}"),
        "[Word { value: \"a\", quoted: false }, Whitespace, Word { value: \"B\", quoted: true }, Period, SingleQuotedString, Ampersand, LParen]"
    );
    assert!(read_tokens("'open").is_err());
}

fn word(value: &str, quoted: bool) -> TokenNode {
    TokenNode::Word { value: value.to_string(), quoted }
}

#[test]
fn quoting_case_and_white_space_hide_nothing() {
    let policy = Policy::default();
    let blocked = |id: &str| {
        Err(format!("Postgres introspection blocked. `{id}` is not available on this SQL surface."))
    };
    assert_eq!(policy.token_screen(&vec![word("lo_get", false)]), blocked("lo_get"));
    assert_eq!(policy.token_screen(&vec![word("lo_get", true)]), blocked("lo_get"));
    assert_eq!(policy.token_screen(&vec![word("LO_get", true)]), blocked("LO_get"));
    let string = TokenNode::DoubleQuotedString("Lo_Get".to_string());
    assert_eq!(policy.token_screen(&vec![string]), blocked("Lo_Get"));
    // `user` is blocked as a bare word alone.
    assert_eq!(policy.token_screen(&vec![word("USER", false)]), blocked("USER"));
    assert_eq!(policy.token_screen(&vec![word("user", true)]), Ok(()));
    assert_eq!(policy.token_screen(&vec![TokenNode::DoubleQuotedString("user".to_string())]), Ok(()));
    let spaced = vec![word("version", false), TokenNode::Whitespace, TokenNode::LParen];
    assert_eq!(policy.token_screen(&spaced), blocked("version"));
    let glued = vec![word("version", false), TokenNode::LParen];
    assert_eq!(policy.token_screen(&glued), blocked("version"));
}

#[test]
fn escapes_are_seen_only_when_glued() {
    let policy = Policy::default();
    let reason = "Unicode-escaped identifiers and strings (U&\"…\") are not allowed on this SQL surface.";
    for third in [
        word("x", true),
        TokenNode::SingleQuotedString,
        TokenNode::DoubleQuotedString("x".to_string()),
    ] {
        let tokens = vec![word("U", false), TokenNode::Ampersand, third];
        assert_eq!(policy.token_screen(&tokens), Err(reason.to_string()));
    }
    assert_eq!(policy.token_screen(&vec![TokenNode::UnicodeString]), Err(reason.to_string()));
    let bare = vec![word("u", false), TokenNode::Ampersand, word("x", false)];
    assert_eq!(policy.token_screen(&bare), Ok(()));
    let quoted = vec![word("u", true), TokenNode::Ampersand, word("x", true)];
    assert_eq!(policy.token_screen(&quoted), Ok(()));
    let spaced = vec![
        word("u", false),
        TokenNode::Whitespace,
        TokenNode::Ampersand,
        word("x", true),
    ];
    assert_eq!(policy.token_screen(&spaced), Ok(()));
}

#[test]
fn a_tokenizer_failure_is_a_refusal() {
    let policy = Policy::default();
    let statements = vec![StatementNode::Other(StatementKind::Insert)];
    assert_eq!(
        policy.validate_statements(&statements, &Err("bad at Line: 1".to_string())),
        Err("Failed to tokenize SQL for contract checks: bad at Line: 1".to_string())
    );
    assert_eq!(
        policy.validate_statements(&vec![], &Err("bad".to_string())),
        Err("Empty query".to_string())
    );
}

#[test]
fn classes_that_this_dialect_does_not_parse_are_refused_too() {
    let policy = Policy::default();
    for (kind, what) in [
        (StatementKind::SetNames, "SET"),
        (StatementKind::CreateProcedure, "CREATE"),
        (StatementKind::Query, "SELECT"),
        (StatementKind::Explain, "EXPLAIN"),
        (StatementKind::SetNamesDefault, "SET"),
        (StatementKind::DropTrigger, "DROP"),
        (StatementKind::CopyInto, "COPY"),
        (StatementKind::Flush, "Unknown statement type"),
        (StatementKind::UnlockTables, "Unknown statement type"),
    ] {
        assert_eq!(
            policy.validate_statement(2, &StatementNode::Other(kind)),
            Err(format!("Statement 3: {what} is not allowed. Only SELECT queries are permitted."))
        );
    }
    assert_eq!(statement_type_name(StatementKind::Merge), "Unknown statement type");
    assert_eq!(statement_type_name(StatementKind::Truncate), "TRUNCATE");
}

fn root(sql: &str) -> QueryNode {
    match read_sql(sql).unwrap().pop().unwrap() {
        StatementNode::Query(walk) => walk.query,
        other => panic!("no query: {other:?}"),
    }
}

#[test]
fn queries_are_read_as_they_are_written() {
    let query = root("WITH a AS (SELECT 1) SELECT b, c AS d FROM e.f LIMIT 3 OFFSET 4");
    assert_eq!(query.with.as_ref().map(|w| w.len()), Some(1));
    assert_eq!(query.text, "WITH a AS (SELECT 1) SELECT b, c AS d FROM e.f LIMIT 3 OFFSET 4");
    assert_eq!(query.limit.as_ref().map(|b| b.text.clone()), Some("3".to_string()));
    assert_eq!(query.offset.as_ref().map(|b| b.text.clone()), Some("4".to_string()));
    assert_eq!((query.order_by, query.fetch, query.locks), (None, false, 0));
    let BodyNode::Select(select) = &query.body else { panic!("no SELECT") };
    assert!(matches!(select.projection[0], SelectItemNode::Unnamed(_)));
    assert!(matches!(select.projection[1], SelectItemNode::Aliased(_)));
    let TableNode::Table { name, args } = &select.from[0].relation else { panic!("no table") };
    assert_eq!(name.parts, ["e", "f"]);
    assert_eq!(name.text, "e.f");
    assert!(args.is_none());
    assert!(root("SELECT 1 FETCH FIRST 2 ROWS ONLY").fetch);
    assert_eq!(root("SELECT 1 ORDER BY a, b").order_by, Some(2));
    assert_eq!(root("SELECT 1 FROM t FOR UPDATE").locks, 1);
}

#[test]
fn walks_keep_the_order_of_the_text() {
    let sql = "WITH a AS (SELECT 1) SELECT 2 FROM (SELECT 3) t WHERE x IN (SELECT 4) ORDER BY (SELECT 5)";
    let StatementNode::Query(walk) = read_sql(sql).unwrap().pop().unwrap() else {
        panic!("no query")
    };
    let texts: Vec<String> = pg_query_gate::gates::walked_queries(&walk)
        .iter()
        .map(|q| q.text.clone())
        .collect();
    assert_eq!(texts[0], sql.replace("SELECT 3) t", "SELECT 3) AS t"));
    assert_eq!(texts[1..], ["SELECT 1", "SELECT 3", "SELECT 4", "SELECT 5"]);
    let inner: Vec<String> = pg_query_gate::gates::nested_queries(&walk)
        .iter()
        .map(|q| q.text.clone())
        .collect();
    assert_eq!(inner, texts[1..]);
}

#[test]
fn parentheses_stay_on_the_spine() {
    let StatementNode::Query(walk) = read_sql("((SELECT 1 FROM (SELECT 2) t)) LIMIT 1").unwrap().pop().unwrap()
    else {
        panic!("no query")
    };
    assert_eq!(pg_query_gate::gates::walked_queries(&walk).len(), 4);
    let inner = pg_query_gate::gates::nested_queries(&walk);
    assert_eq!(inner.len(), 1);
    assert_eq!(inner[0].text, "SELECT 2");
}

#[test]
fn only_output_columns_need_aliases() {
    assert!(validate_aggregate_aliases(&root("SELECT count(*) FROM t")).is_err());
    assert!(validate_aggregate_aliases(&root("SELECT n FROM (SELECT count(*) AS n FROM t) s")).is_ok());
    assert!(validate_aggregate_aliases(&root("SELECT (SELECT count(*) FROM t)")).is_err());
    assert!(validate_aggregate_aliases(&root("SELECT (SELECT count(*) FROM t) AS n")).is_ok());
    assert!(validate_aggregate_aliases(&root("VALUES (count(1))")).is_ok());
    assert_eq!(
        validate_aggregate_aliases(&root("SELECT sum(x) FROM t")),
        Err(pg_query_gate::AGGREGATE_ALIAS_ERROR.to_string())
    );
}

#[test]
fn copies_of_a_policy_decide_alike() {
    let mut policy = Policy::default();
    policy.blocked_identifiers.push("secret".to_string());
    let copy = policy.clone();
    assert_eq!(format!("{policy:?}"), format!("{copy:?}"));
    assert_eq!(copy.validate("SELECT secret"), policy.validate("SELECT secret"));
    assert_eq!(Policy::default().max_limit, pg_query_gate::DEFAULT_MAX_LIMIT);
}
