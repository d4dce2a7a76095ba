//! Statement texts, accepted and refused.

use pg_query_gate::{query_shape_hash, Policy};

fn validate(sql: &str) -> Result<(), String> {
    Policy::default().validate(sql)
}

#[test]
fn test_valid_select() {
    assert!(validate("SELECT * FROM users LIMIT 10").is_ok());
}

#[test]
fn test_requires_limit() {
    assert!(validate("SELECT * FROM users").is_err());
}

#[test]
fn test_blocks_multi_statement_injection() {
    // Semicolon injection: valid SELECT followed by DROP.
    let sql = "SELECT 1 LIMIT 1; DROP TABLE users";
    assert!(validate(sql).is_err());
}

#[test]
fn test_blocks_catalog_introspection() {
    let err = validate("SELECT * FROM information_schema.columns LIMIT 10")
        .expect_err("information_schema should be blocked");
    assert!(err.contains("Postgres introspection blocked"));

    let err = validate("SELECT * FROM pg_views LIMIT 10").expect_err("pg_views blocked");
    assert!(err.contains("Postgres introspection blocked"));
}

#[test]
fn test_blocks_select_callable_side_effect_helpers() {
    for sql in [
        "SELECT binary_upgrade_set_next_pg_authid_oid(1::oid) LIMIT 1",
        "SELECT lo_create(12345) LIMIT 1",
        "SELECT nextval('some_sequence') LIMIT 1",
        "SELECT dblink_connect('dbname=postgres') LIMIT 1",
        "SELECT * FROM ts_stat('SELECT to_tsvector(''simple'', content_text) FROM entities') LIMIT 1",
        "SELECT ts_rewrite(to_tsquery('a'), $$SELECT to_tsquery('a'), to_tsquery('b')$$) LIMIT 1",
    ] {
        let err = validate(sql).expect_err("side-effect helper should be blocked");
        assert!(err.contains("Postgres introspection blocked"), "unexpected error for {sql}: {err}");
    }
}

#[test]
fn query_shape_hash_scrubs_literal_variance() {
    let a = query_shape_hash("SELECT * FROM entities WHERE id = 42 AND title = 'alpha' LIMIT 10");
    let b = query_shape_hash(" select  *  from entities where id = 99 and title = 'beta' limit 25 ");
    assert_eq!(a, b);
}

fn refusal(sql: &str) -> String {
    match validate(sql) {
        Ok(()) => panic!("not refused: {sql}"),
        Err(reason) => reason,
    }
}

fn refused_as(cases: &[(&str, &str)]) {
    for (sql, reason) in cases {
        assert_eq!(&refusal(sql), reason, "for {sql}");
    }
}

#[test]
fn bounded_reads_are_accepted() {
    for sql in [
        "SELECT 1",
        "SELECT 1, 'a' AS b, now() AS c",
        "SELECT count(*) AS n FROM users",
        "SELECT COUNT(id) n FROM users WHERE age > 3",
        "SELECT * FROM users LIMIT 10000",
        "SELECT * FROM users LIMIT 0",
        "SELECT * FROM users LIMIT 10 OFFSET 10000",
        "SELECT a.id FROM a JOIN b ON a.id = b.a_id LIMIT 5",
        "SELECT a.id FROM a LEFT JOIN b USING (id) LIMIT 5",
        "WITH t AS (SELECT id FROM users) SELECT id FROM t LIMIT 5",
        "(SELECT id FROM users ORDER BY id) LIMIT 5",
        "SELECT id FROM users UNION SELECT id FROM admins LIMIT 5",
        "SELECT id FROM (SELECT id FROM users ORDER BY id LIMIT 3) t LIMIT 5",
        "VALUES (1), (2) LIMIT 1",
        "EXPLAIN SELECT * FROM users LIMIT 10",
        "EXPLAIN (ANALYZE FALSE) SELECT * FROM users LIMIT 10",
        "EXPLAIN (COSTS TRUE, VERBOSE) SELECT * FROM users LIMIT 10",
        "EXPLAIN SELECT count(*) FROM users",
        "SELECT id FROM t WHERE u & \"x\" = 1 LIMIT 1",
        "SELECT w FROM t CROSS JOIN LATERAL regexp_split_to_table(t.body, ',') AS w LIMIT 5",
        "SELECT id FROM users WHERE id IN (SELECT user_id FROM orders) LIMIT 5",
    ] {
        assert_eq!(validate(sql), Ok(()), "for {sql}");
    }
}

#[test]
fn empty_and_many_statements_are_refused() {
    refused_as(&[
        ("", "Empty query"),
        ("  ;; ", "Empty query"),
        (
            "SELECT 1 LIMIT 1; SELECT 2 LIMIT 1",
            "Only a single statement is supported. Use a single SELECT (or SELECT with CTEs/UNION) query.",
        ),
    ]);
}

#[test]
fn limits_are_literals_within_the_cap() {
    let wanted = "Query must have a LIMIT clause. Add 'LIMIT 10000' or less to prevent runaway queries.";
    refused_as(&[
        ("SELECT * FROM users", wanted),
        ("SELECT * FROM users LIMIT ALL", wanted),
        ("SELECT count(*) AS n FROM users GROUP BY name", wanted),
        ("SELECT count(*) OVER () AS n FROM users", wanted),
        ("SELECT count(*) AS n, 1 AS m FROM users", wanted),
        ("SELECT (SELECT 1) AS x", wanted),
        ("VALUES (1), (2)", wanted),
        ("SELECT * FROM users LIMIT 10001", "LIMIT 10001 is too large. Maximum allowed is 10000."),
        ("SELECT * FROM users LIMIT NULL", "LIMIT NULL is not allowed. Use a numeric LIMIT value."),
        ("SELECT * FROM users LIMIT \"All\"", "LIMIT ALL is not allowed. Use a numeric LIMIT value."),
        ("SELECT * FROM users LIMIT 1.5", "Invalid LIMIT value '1.5'. LIMIT must be a positive integer."),
        (
            "SELECT * FROM users LIMIT 99999999999999999999",
            "Invalid LIMIT value '99999999999999999999'. LIMIT must be a positive integer.",
        ),
        (
            "SELECT * FROM users LIMIT 1 + 1",
            "LIMIT must be a numeric literal (e.g., LIMIT 100). Found: 1 + 1. Expressions, subqueries, and special values are not allowed.",
        ),
        (
            "SELECT * FROM users LIMIT (SELECT 5)",
            "LIMIT must be a numeric literal (e.g., LIMIT 100). Found: (SELECT 5). Expressions, subqueries, and special values are not allowed.",
        ),
    ]);
}

#[test]
fn offsets_are_literals_within_the_cap_at_every_depth() {
    refused_as(&[
        (
            "SELECT * FROM users LIMIT 1 OFFSET 10001",
            "OFFSET 10001 is too large. Maximum allowed is 10000.",
        ),
        (
            "SELECT * FROM users LIMIT 1 OFFSET NULL",
            "OFFSET NULL is not allowed. Use a numeric OFFSET value.",
        ),
        (
            "SELECT * FROM users LIMIT 1 OFFSET 2.5",
            "Invalid OFFSET value '2.5'. OFFSET must be a non-negative integer.",
        ),
        (
            "SELECT * FROM users LIMIT 1 OFFSET -1",
            "OFFSET must be a numeric literal (e.g., OFFSET 100). Found: -1. Expressions, subqueries, and special values are not allowed.",
        ),
        (
            "SELECT * FROM (SELECT id FROM users OFFSET 20000) t LIMIT 1",
            "OFFSET 20000 is too large. Maximum allowed is 10000.",
        ),
        (
            "WITH t AS (SELECT id FROM users OFFSET 20001) SELECT * FROM t LIMIT 1",
            "OFFSET 20001 is too large. Maximum allowed is 10000.",
        ),
        (
            "SELECT * FROM users WHERE id IN (SELECT id FROM b OFFSET 20002) LIMIT 1",
            "OFFSET 20002 is too large. Maximum allowed is 10000.",
        ),
        (
            "SELECT id FROM users ORDER BY (SELECT id FROM b OFFSET 20003) LIMIT 1",
            "OFFSET 20003 is too large. Maximum allowed is 10000.",
        ),
    ]);
}

#[test]
fn statement_classes_are_refused_by_name() {
    for (sql, what) in [
        ("INSERT INTO t VALUES (1)", "INSERT"),
        ("UPDATE t SET a = 1", "UPDATE"),
        ("DELETE FROM t", "DELETE"),
        ("DROP TABLE t", "DROP"),
        ("CREATE TABLE t (a INT)", "CREATE"),
        ("CREATE INDEX i ON t (a)", "CREATE"),
        ("CREATE VIEW v AS SELECT 1", "CREATE"),
        ("CREATE SCHEMA s", "CREATE"),
        ("CREATE DATABASE d", "CREATE"),
        ("CREATE FUNCTION f() RETURNS INT AS 'SELECT 1' LANGUAGE SQL", "CREATE"),
        ("CREATE TYPE c AS (a INT)", "CREATE"),
        ("CREATE ROLE r", "CREATE"),
        ("CREATE SEQUENCE s", "CREATE"),
        ("CREATE EXTENSION e", "CREATE"),
        ("ALTER TABLE t ADD COLUMN a INT", "ALTER"),
        ("ALTER INDEX i RENAME TO j", "ALTER"),
        ("ALTER VIEW v AS SELECT 1", "ALTER"),
        ("ALTER ROLE r SUPERUSER", "ALTER"),
        ("TRUNCATE TABLE t", "TRUNCATE"),
        ("GRANT SELECT ON t TO r", "GRANT"),
        ("REVOKE SELECT ON t FROM r", "REVOKE"),
        ("COPY t FROM STDIN;\n\\.\n", "COPY"),
        ("SET a = 1", "SET"),
        ("SET ROLE r", "SET"),
        ("SET TIME ZONE 'UTC'", "SET"),
        ("SET TRANSACTION READ ONLY", "SET"),
        ("BEGIN", "Transaction control"),
        ("COMMIT", "Transaction control"),
        ("ROLLBACK", "Transaction control"),
        ("SAVEPOINT s", "Transaction control"),
        ("EXECUTE p", "EXECUTE/CALL"),
        ("CALL p()", "EXECUTE/CALL"),
        ("PREPARE p AS SELECT 1", "PREPARE/DEALLOCATE"),
        ("DEALLOCATE p", "PREPARE/DEALLOCATE"),
        ("LISTEN c", "LISTEN/NOTIFY"),
        ("NOTIFY c", "LISTEN/NOTIFY"),
        ("ANALYZE TABLE t", "ANALYZE"),
        ("DESCRIBE t", "EXPLAIN TABLE"),
        ("MERGE INTO t USING s ON t.a = s.a WHEN MATCHED THEN DELETE", "MERGE"),
        ("DECLARE c CURSOR FOR SELECT 1", "Cursor operations"),
        ("FETCH NEXT FROM c", "Cursor operations"),
        ("CLOSE c", "Cursor operations"),
        ("RELEASE SAVEPOINT s", "Transaction control"),
        ("SHOW TABLES", "Unknown statement type"),
        ("SHOW a", "Unknown statement type"),
        ("DISCARD ALL", "DISCARD"),
        ("COMMENT ON TABLE t IS 'x'", "COMMENT"),
        ("ASSERT true", "Unknown statement type"),
        ("KILL 1", "Unknown statement type"),
        ("UNCACHE TABLE t", "Unknown statement type"),
        ("DROP FUNCTION f", "DROP"),
        ("USE d", "USE"),
    ] {
        let reason = format!("Statement 1: {what} is not allowed. Only SELECT queries are permitted.");
        assert_eq!(refusal(sql), reason, "for {sql}");
    }
}

#[test]
fn explain_must_not_execute() {
    let reason = "Statement 1: EXPLAIN ANALYZE is not allowed (it executes the query). Use EXPLAIN without ANALYZE.";
    refused_as(&[
        ("EXPLAIN ANALYZE SELECT 1", reason),
        ("EXPLAIN (ANALYZE) SELECT 1", reason),
        ("EXPLAIN (ANALYZE TRUE) SELECT 1", reason),
        ("EXPLAIN (VERBOSE, analyze) SELECT 1", reason),
        ("EXPLAIN (ANALYZE 1) SELECT 1", reason),
        (
            "EXPLAIN INSERT INTO t VALUES (1)",
            "Statement 1: EXPLAIN can only be used with read-only queries. EXPLAIN INSERT is not allowed.",
        ),
        (
            "EXPLAIN SELECT * FROM t LIMIT 1 FOR SHARE",
            "Statement 1: EXPLAIN SELECT ... FOR UPDATE/SHARE is not allowed",
        ),
        (
            "EXPLAIN SELECT * FROM t",
            "Query must have a LIMIT clause. Add 'LIMIT 10000' or less to prevent runaway queries.",
        ),
    ]);
}

#[test]
fn writes_inside_queries_are_refused() {
    refused_as(&[
        ("SELECT * FROM t LIMIT 1 FOR UPDATE", "Statement 1: SELECT ... FOR UPDATE/SHARE is not allowed"),
        ("SELECT * INTO x FROM t LIMIT 1", "Statement 1: SELECT ... INTO is not allowed"),
        (
            "WITH x AS (INSERT INTO t VALUES (1)) SELECT * FROM x LIMIT 1",
            "Statement 1: data-modifying queries are not allowed (found INSERT inside a query)",
        ),
        (
            "WITH x AS (UPDATE t SET a = 1) SELECT * FROM x LIMIT 1",
            "Statement 1: data-modifying queries are not allowed (found UPDATE inside a query)",
        ),
        (
            "SELECT * FROM (SELECT * FROM t FOR UPDATE) x LIMIT 1",
            "Statement 1: SELECT ... FOR UPDATE/SHARE is not allowed",
        ),
        (
            "SELECT 1 UNION SELECT * INTO x FROM t LIMIT 1",
            "Statement 1: SELECT ... INTO is not allowed",
        ),
    ]);
}

#[test]
fn table_functions_are_refused_by_default() {
    refused_as(&[
        (
            "SELECT * FROM generate_series(1, 10) LIMIT 5",
            "Statement 1: Table-valued function `generate_series` is not allowed on this SQL surface.",
        ),
        (
            "SELECT * FROM unnest(ARRAY[1, 2]) LIMIT 5",
            "Statement 1: Table-valued function `UNNEST` is not allowed on this SQL surface.",
        ),
        (
            "SELECT * FROM TABLE(f(1)) LIMIT 5",
            "Statement 1: Table-valued function `TABLE(...)` is not allowed on this SQL surface.",
        ),
        (
            "SELECT * FROM a JOIN my.Func(1) f ON a.id = f.id LIMIT 5",
            "Statement 1: Table-valued function `my.Func` is not allowed on this SQL surface.",
        ),
        (
            "SELECT * FROM a CROSS JOIN LATERAL other(a.x) LIMIT 5",
            "Statement 1: Table-valued function `other` is not allowed on this SQL surface.",
        ),
        (
            "SELECT * FROM (a JOIN f(1) b ON a.id = b.id) LIMIT 5",
            "Statement 1: Table-valued function `f` is not allowed on this SQL surface.",
        ),
    ]);
}

fn with_functions() -> Policy {
    let mut policy = Policy::default();
    policy.bounded_table_functions = vec!["my.search".to_string()];
    policy.safe_lateral_functions = vec!["my.tokens".to_string()];
    policy.set_returning_functions = vec!["my.rows".to_string()];
    policy
}

#[test]
fn listed_functions_are_admitted() {
    let policy = with_functions();
    for sql in [
        "SELECT * FROM my.search('x')",
        "SELECT * FROM My.Search('x') LIMIT 5",
        "SELECT * FROM t CROSS JOIN LATERAL my.tokens(t.body) AS w LIMIT 5",
    ] {
        assert_eq!(policy.validate(sql), Ok(()), "for {sql}");
    }
    for (sql, reason) in [
        (
            "SELECT * FROM my.search('x') OFFSET 1",
            "Query must have a LIMIT clause. Add 'LIMIT 10000' or less to prevent runaway queries.",
        ),
        (
            "SELECT * FROM my.search((SELECT 1)) LIMIT 5",
            "Statement 1: Table-valued function `my.search` arguments may not contain subqueries on this SQL surface.",
        ),
        (
            "SELECT * FROM my.search(f(ARRAY(SELECT 1))) LIMIT 5",
            "Statement 1: Table-valued function `my.search` arguments may not contain subqueries on this SQL surface.",
        ),
        (
            "SELECT * FROM my.search(x => generate_series(1, 2)) LIMIT 5",
            "Statement 1: Table-valued function `my.search` arguments may not contain set-returning functions on this SQL surface.",
        ),
        (
            "SELECT * FROM my.search(my.rows(1)) LIMIT 5",
            "Statement 1: Table-valued function `my.search` arguments may not contain set-returning functions on this SQL surface.",
        ),
        (
            "SELECT * FROM my.search(*) LIMIT 5",
            "Statement 1: Table-valued function `my.search` arguments may not use wildcard arguments on this SQL surface.",
        ),
        (
            "SELECT * FROM my.tokens('x') LIMIT 5",
            "Statement 1: Table-valued function `my.tokens` is not allowed on this SQL surface.",
        ),
        (
            "SELECT my.search(1) AS s FROM t LIMIT 5",
            "Set-returning functions are not allowed in the SELECT list on this SQL surface; they can expand result cardinality without bound.",
        ),
    ] {
        assert_eq!(policy.validate(sql), Err(reason.to_string()), "for {sql}");
    }
}

#[test]
fn nested_sorts_bound_themselves() {
    let reason = "Nested queries with ORDER BY must include their own bounded LIMIT. An outer LIMIT does not bound inner sort work.";
    refused_as(&[
        ("SELECT * FROM (SELECT id FROM users ORDER BY id) t LIMIT 5", reason),
        ("WITH t AS (SELECT id FROM users ORDER BY id) SELECT id FROM t LIMIT 5", reason),
        ("SELECT id FROM users UNION (SELECT id FROM b ORDER BY id) LIMIT 5", reason),
        ("SELECT id FROM a WHERE id = (SELECT id FROM b ORDER BY id) LIMIT 5", reason),
        ("SELECT id FROM (SELECT id FROM users ORDER BY id LIMIT 20000) t LIMIT 5", reason),
    ]);
}

#[test]
fn rows_are_not_multiplied_in_projections() {
    let reason = "Set-returning functions are not allowed in the SELECT list on this SQL surface; they can expand result cardinality without bound.";
    refused_as(&[
        ("SELECT generate_series(1, 10) AS g FROM users LIMIT 5", reason),
        ("SELECT 1 + unnest(a) AS g FROM users LIMIT 5", reason),
        ("SELECT count(*) AS n FROM (SELECT generate_series(1, 1000000000) AS g) t", reason),
        ("SELECT id FROM a WHERE id IN (SELECT jsonb_array_elements(x) FROM b) LIMIT 5", reason),
    ]);
}

fn cartesian(shape: &str) -> String {
    format!("Potential cartesian product detected: {shape}. This join shape is not allowed on this SQL surface because it can explode result cardinality. Rewrite with an explicit ON clause or another bounded relational shape.")
}

#[test]
fn cartesian_products_are_refused() {
    for (sql, shape) in [
        ("SELECT * FROM a CROSS JOIN b LIMIT 5", "CROSS JOIN"),
        ("SELECT * FROM a JOIN b LIMIT 5", "JOIN without ON clause"),
        ("SELECT * FROM a LEFT JOIN b LIMIT 5", "LEFT JOIN without ON clause"),
        ("SELECT * FROM a RIGHT JOIN b LIMIT 5", "RIGHT JOIN without ON clause"),
        ("SELECT * FROM a FULL JOIN b LIMIT 5", "FULL JOIN without ON clause"),
        ("SELECT * FROM a NATURAL JOIN b LIMIT 5", "NATURAL JOIN"),
        ("SELECT * FROM a LEFT SEMI JOIN b LIMIT 5", "cartesian product"),
        ("SELECT * FROM a JOIN b ON true LIMIT 5", "JOIN with tautological ON condition"),
        ("SELECT * FROM a JOIN b ON (1 = 1) LIMIT 5", "JOIN with tautological ON condition"),
        ("SELECT * FROM a JOIN b ON a.id = a.id LIMIT 5", "JOIN with tautological ON condition"),
        ("SELECT * FROM a JOIN b ON a.x + 1 = a.x + 1 LIMIT 5", "JOIN with tautological ON condition"),
        ("SELECT * FROM a JOIN b ON 'x' = ('x') AND true LIMIT 5", "JOIN with tautological ON condition"),
        ("SELECT * FROM a JOIN b ON a.id = b.id OR true LIMIT 5", "JOIN with tautological ON condition"),
        (
            "SELECT * FROM a JOIN b ON DATE '2020-01-01' = (date '2020-01-01') LIMIT 5",
            "JOIN with tautological ON condition",
        ),
        ("SELECT id FROM a WHERE id IN (SELECT a.id FROM a CROSS JOIN b) LIMIT 5", "CROSS JOIN"),
        ("SELECT id FROM a UNION SELECT b.id FROM b CROSS JOIN c LIMIT 5", "CROSS JOIN"),
        ("WITH t AS (SELECT b.id FROM b CROSS JOIN c) SELECT id FROM t LIMIT 5", "CROSS JOIN"),
    ] {
        assert_eq!(refusal(sql), cartesian(shape), "for {sql}");
    }
    refused_as(&[
        (
            "SELECT * FROM a, b LIMIT 5",
            "Multiple tables in FROM clause without explicit JOIN. Use explicit JOIN syntax with ON clauses instead of comma-separated tables. Example: 'FROM a JOIN b ON a.id = b.a_id' instead of 'FROM a, b WHERE a.id = b.a_id'",
        ),
        (
            "SELECT * FROM (a CROSS JOIN b) LIMIT 5",
            "Potential cartesian product detected inside nested join.",
        ),
    ]);
}

#[test]
fn conditions_that_relate_rows_are_accepted() {
    for sql in [
        "SELECT * FROM a JOIN b ON a.id = b.id AND true LIMIT 5",
        "SELECT * FROM a JOIN b ON 1 = 2 LIMIT 5",
        "SELECT * FROM a JOIN b ON false OR a.id = b.id LIMIT 5",
        "SELECT * FROM a JOIN b ON a.id < a.id LIMIT 5",
        "SELECT * FROM a JOIN b ON DATE '2020-01-01' = DATE '2020-01-02' LIMIT 5",
        "SELECT * FROM (a JOIN b ON a.id = b.id) LIMIT 5",
    ] {
        assert_eq!(validate(sql), Ok(()), "for {sql}");
    }
}

#[test]
fn aggregates_carry_aliases() {
    let reason = "Alias the aggregate: count() AS n.";
    refused_as(&[
        ("SELECT count(*) FROM users", reason),
        ("SELECT sum(x) + 1 FROM users LIMIT 5", reason),
        ("SELECT name, max(x) FROM users GROUP BY name LIMIT 5", reason),
        ("SELECT my.countIf(x > 1) FROM users LIMIT 5", reason),
        ("(SELECT avg(x) FROM users) LIMIT 5", reason),
        ("SELECT min(x) FROM users UNION SELECT 1 AS a LIMIT 5", reason),
    ]);
    for sql in [
        "SELECT sum(x) AS s FROM users LIMIT 5",
        "SELECT countries(x) FROM users LIMIT 5",
        "SELECT n FROM (SELECT count(*) FROM users) t LIMIT 5",
        "SELECT 1 AS a UNION SELECT min(x) FROM users LIMIT 5",
    ] {
        assert_eq!(validate(sql), Ok(()), "for {sql}");
    }
    let mut policy = Policy::default();
    policy.require_aggregate_aliases = false;
    assert_eq!(policy.validate("SELECT count(*) FROM users"), Ok(()));
}

fn blocked(identifier: &str) -> String {
    format!("Postgres introspection blocked. `{identifier}` is not available on this SQL surface.")
}

#[test]
fn blocked_identifiers_are_refused_in_every_spelling() {
    for (sql, identifier) in [
        ("SELECT * FROM pg_catalog.pg_class LIMIT 1", "pg_catalog"),
        ("SELECT * FROM \"pg_catalog\".\"pg_class\" LIMIT 1", "pg_catalog"),
        ("SELECT * FROM Information_Schema . tables LIMIT 1", "Information_Schema"),
        ("SELECT \"pg_sleep\"(1) LIMIT 1", "pg_sleep"),
        ("SELECT PG_SLEEP(1) LIMIT 1", "PG_SLEEP"),
        ("SELECT binary_upgrade_anything() LIMIT 1", "binary_upgrade_anything"),
        ("SELECT current_setting('x') LIMIT 1", "current_setting"),
        ("SELECT a AS lo_import FROM t LIMIT 1", "lo_import"),
        ("SELECT user LIMIT 1", "user"),
        ("SELECT version() LIMIT 1", "version"),
        ("SELECT version () LIMIT 1", "version"),
        ("SELECT repeat('x', 5) LIMIT 1", "repeat"),
    ] {
        assert_eq!(refusal(sql), blocked(identifier), "for {sql}");
    }
    for sql in [
        "SELECT version FROM t LIMIT 1",
        "SELECT information_schema FROM t LIMIT 1",
        "SELECT 'pg_catalog' AS a FROM t LIMIT 1",
        "SELECT users FROM t LIMIT 1",
    ] {
        assert_eq!(validate(sql), Ok(()), "for {sql}");
    }
}

#[test]
fn unicode_escaped_identifiers_are_refused() {
    let reason = "Unicode-escaped identifiers and strings (U&\"…\") are not allowed on this SQL surface.";
    refused_as(&[
        ("SELECT U&\"v\\0065rsion\"() LIMIT 1", reason),
        ("SELECT u&\"a\" FROM t LIMIT 1", reason),
    ]);
    assert_eq!(validate("SELECT u &\"a\" FROM t LIMIT 1"), Ok(()));
    assert_eq!(refusal("SELECT U&'\\0041' LIMIT 1"), reason);
    assert_eq!(refusal("SELECT u&'a' AS a FROM t LIMIT 1"), reason);
}

#[test]
fn queries_in_expressions_are_screened_like_any_other() {
    let locked = "Statement 1: SELECT ... FOR UPDATE/SHARE is not allowed";
    let function = "Statement 1: Table-valued function `generate_series` is not allowed on this SQL surface.";
    for (sql, reason) in [
        ("SELECT id FROM users WHERE id IN (SELECT id FROM orders FOR UPDATE) LIMIT 10", locked),
        ("SELECT id FROM users WHERE EXISTS (SELECT 1 FROM orders FOR SHARE) LIMIT 10", locked),
        ("SELECT (SELECT id FROM orders FOR UPDATE) AS a FROM users LIMIT 10", locked),
        ("SELECT id FROM users ORDER BY (SELECT id FROM orders FOR UPDATE) LIMIT 10", locked),
        ("SELECT ARRAY(SELECT id FROM orders FOR UPDATE) AS a FROM users LIMIT 10", locked),
    ] {
        assert_eq!(refusal(sql), reason, "for {sql}");
    }
    let series = "SELECT * FROM users WHERE id IN (SELECT g FROM generate_series(1, 1000000000) AS g) LIMIT 10";
    assert!(refusal(series).starts_with(&function[..48]), "{}", refusal(series));
    assert_eq!(
        refusal("EXPLAIN SELECT id FROM users WHERE id IN (SELECT id FROM orders FOR UPDATE) LIMIT 10"),
        "Statement 1: EXPLAIN SELECT ... FOR UPDATE/SHARE is not allowed"
    );
    assert_eq!(
        validate("SELECT id FROM users WHERE id IN (SELECT id FROM orders) LIMIT 10"),
        Ok(())
    );
    assert_eq!(validate("SELECT id FROM users WHERE id IN (VALUES (1), (2)) LIMIT 10"), Ok(()));
}

#[test]
fn set_returning_functions_are_refused_in_every_branch() {
    let reason = "Set-returning functions are not allowed in the SELECT list on this SQL surface; they can expand result cardinality without bound.";
    refused_as(&[
        ("SELECT generate_series(1, 1000000000) AS g UNION ALL SELECT 1 LIMIT 10", reason),
        ("SELECT 1 AS g UNION ALL SELECT generate_series(1, 10) LIMIT 10", reason),
        ("SELECT 1 AS g UNION SELECT 2 EXCEPT SELECT unnest(a) FROM t LIMIT 10", reason),
        ("SELECT a FROM t WHERE a IN (SELECT 1 UNION SELECT generate_series(1, 9)) LIMIT 10", reason),
    ]);
    assert_eq!(validate("SELECT 1 AS g UNION ALL SELECT 2 LIMIT 10"), Ok(()));
}

#[test]
fn windows_do_not_make_one_row() {
    let reason = "Query must have a LIMIT clause. Add 'LIMIT 10000' or less to prevent runaway queries.";
    refused_as(&[
        ("SELECT count(*) OVER w AS n FROM users WINDOW w AS (PARTITION BY id)", reason),
        ("SELECT count(*) OVER (PARTITION BY id) AS n FROM users", reason),
        ("SELECT count(*) OVER () AS n FROM users", reason),
    ]);
    assert_eq!(validate("SELECT count(*) AS n FROM users"), Ok(()));
    assert_eq!(
        validate("SELECT count(*) OVER w AS n FROM users WINDOW w AS (PARTITION BY id) LIMIT 10"),
        Ok(())
    );
}

#[test]
fn bare_words_and_prefixes_are_told_apart() {
    assert_eq!(refusal("SELECT user FROM t LIMIT 1"), blocked("user"));
    assert_eq!(validate("SELECT \"user\" FROM t LIMIT 1"), Ok(()));
    for name in ["dblink_fdw_validator", "lo_manage", "DBLINK_x", "lo_export"] {
        assert_eq!(refusal(&format!("SELECT {name}(1) LIMIT 1")), blocked(name));
    }
    assert_eq!(validate("SELECT low, log_level FROM t LIMIT 1"), Ok(()));
}

#[test]
fn a_grantor_without_a_name_is_a_parse_error() {
    let reason = |column: usize| {
        format!("SQL parse error: sql parser error: Expected: end of statement, found: GRANTED at Line: 1, Column: {column}")
    };
    for (sql, column) in [
        ("GRANT SELECT ON t TO a GRANTED BY", 24),
        ("REVOKE SELECT ON t FROM a GRANTED  BY  ", 27),
        ("PREPARE p AS GRANT SELECT ON t TO a GRANTED BY;", 37),
        ("EXPLAIN GRANT SELECT ON t TO a GRANTED BY", 32),
        ("SELECT 1; REVOKE SELECT ON t FROM a GRANTED BY;", 37),
        ("CREATE PROCEDURE p AS BEGIN GRANT SELECT ON t TO a GRANTED BY; END", 52),
    ] {
        assert_eq!(refusal(sql), reason(column), "for {sql}");
    }
    assert!(refusal("EXPLAIN EXPLAIN GRANT SELECT ON t TO a GRANTED BY").starts_with("SQL parse error"));
    assert!(refusal("grant select on t to a granted by 1").contains("found: granted at"));
    let class = "Statement 1: GRANT is not allowed. Only SELECT queries are permitted.";
    assert_eq!(refusal("GRANT SELECT ON t TO a GRANTED BY b"), class);
    assert_eq!(refusal("GRANT SELECT ON t TO a GRANTED BY \"b\""), class);
    assert_eq!(refusal("GRANT SELECT ON t TO a GRANTED BY 'b'"), class);
    assert_eq!(validate("SELECT granted FROM t ORDER BY 1 LIMIT 1"), Ok(()));
}

#[test]
fn granted_by_is_no_keyword_elsewhere() {
    for sql in [
        "SELECT GRANT,GRANTED BY,c",
        "SELECT GRANT, GRANTED /* x */ BY, c FROM t LIMIT 3",
        "SELECT granted by",
        "SELECT a FROM (SELECT granted by FROM t) s LIMIT 1",
        "SELECT 1 END GRANT SELECT ON t TO a GRANTED BY",
    ] {
        assert_eq!(validate(sql), Ok(()), "for {sql}");
    }
    assert_eq!(
        refusal("SHOW GRANT SELECT ON t TO a GRANTED BY"),
        "Statement 1: Unknown statement type is not allowed. Only SELECT queries are permitted."
    );
    // What fails for another reason fails with the words of the parser.
    let dialect = sqlparser::dialect::PostgreSqlDialect {};
    for sql in [
        "GRANT foo ON t TO a GRANTED BY",
        "GRANT SELECT ON t TO a CASCADE GRANTED BY",
        "GRANT SELECT ON t TO a GRANTED BY b GRANTED BY",
        "GRANT SELECT ON t TO a GRANTED BY GRANTED BY;",
        "SELECT GRANT SELECT ON t TO a GRANTED BY",
        "SELECT a LIKE 'b' ESCAPE GRANTED BY, c",
        "SELECT count(*) OVER (GRANTED BY) FROM t",
        "GRANTED BY",
        "SELECT GRANTED BY, , c",
    ] {
        let error = sqlparser::parser::Parser::parse_sql(&dialect, sql).unwrap_err();
        assert_eq!(refusal(sql), format!("SQL parse error: {error}"), "for {sql}");
    }
}

#[test]
fn token_screen_comes_before_the_statement_count() {
    assert_eq!(refusal("SELECT 1; SELECT * FROM pg_user"), blocked("pg_user"));
}

#[test]
fn parse_errors_are_explained() {
    refused_as(&[
        ("SELECT 'abc", "Unterminated string literal. Check for missing closing quote (')."),
        (
            "SELECT 1 1",
            "SQL parse error: sql parser error: Expected: end of statement, found: 1 at Line: 1, Column: 10",
        ),
        ("SELECT * FROM", "SQL parse error: sql parser error: Expected: identifier, found: EOF"),
        (
            "SELECT (1",
            "sql parser error: Expected: ), found: EOF. Check for unbalanced parentheses.",
        ),
        (
            "SELECT * FORM users",
            "sql parser error: Expected: end of statement, found: FORM at Line: 1, Column: 10. Did you mean 'FROM' instead of 'FORM'?",
        ),
        (
            "SELECT * FROM users WEHRE id = 1",
            "sql parser error: Expected: end of statement, found: id at Line: 1, Column: 27. Did you mean 'WHERE'?",
        ),
        (
            "SELCT * FROM users",
            "sql parser error: Expected: an SQL statement, found: SELCT at Line: 1, Column: 1. Did you mean 'SELECT'?",
        ),
    ]);
}

#[test]
fn a_lower_cap_and_longer_lists_refuse_more() {
    let mut strict = Policy::default();
    strict.max_limit = 5;
    strict.blocked_identifiers.push("secret".to_string());
    assert_eq!(
        strict.validate("SELECT * FROM users LIMIT 6"),
        Err("LIMIT 6 is too large. Maximum allowed is 5.".to_string())
    );
    assert_eq!(strict.validate("SELECT secret FROM t LIMIT 5"), Err(blocked("secret")));
    assert_eq!(strict.validate("SELECT * FROM users LIMIT 5"), Ok(()));
    assert_eq!(validate("SELECT secret FROM t LIMIT 6"), Ok(()));
}
