//! Query shapes and their hashes.

use pg_query_gate::query_shape_hash;
use pg_query_gate::shape::{
    collapse_whitespace, is_whitespace, normalize_query_shape, shape_of_statements,
};

#[test]
fn literals_are_scrubbed() {
    assert_eq!(
        normalize_query_shape("select * from t where a = 42 and b = 'x' and c is null limit 10"),
        "SELECT * FROM t WHERE a = ? AND b = ? AND c IS NULL LIMIT ?"
    );
    assert_eq!(
        normalize_query_shape("SELECT DATE '2020-01-01', true, NULL, -1, f(2, 'a')"),
        "SELECT DATE '?', ?, ?, -?, f(?, ?)"
    );
    assert_eq!(
        normalize_query_shape("SELECT id FROM t WHERE id IN (1, (SELECT 2)) ORDER BY 3"),
        "SELECT id FROM t WHERE id IN (?, (SELECT ?)) ORDER BY ?"
    );
}

#[test]
fn statements_are_joined() {
    assert_eq!(normalize_query_shape("SELECT 1; select 2"), "SELECT ?; SELECT ?");
    assert_eq!(normalize_query_shape(""), "");
    assert_eq!(shape_of_statements(&vec!["a".to_string(), "b".to_string()]), "a; b");
}

#[test]
fn other_texts_have_their_white_space_collapsed() {
    assert_eq!(normalize_query_shape("  not   sql\t at\n all  "), "not sql at all");
    assert_eq!(collapse_whitespace(""), "");
    assert_eq!(collapse_whitespace(" \t\n "), "");
    assert_eq!(collapse_whitespace("one"), "one");
    assert_eq!(collapse_whitespace("\u{a0}a\u{2003}\u{3000}b\u{85}"), "a b");
}

#[test]
fn collapsing_twice_is_collapsing_once() {
    for text in ["", " a  b ", "x", "a\tb\nc  d ", "  "] {
        let once = collapse_whitespace(text);
        assert_eq!(collapse_whitespace(&once), once);
    }
}

#[test]
fn white_space_is_that_of_the_standard_library() {
    for code in 0..=0x10ffffu32 {
        if let Some(c) = char::from_u32(code) {
            assert_eq!(is_whitespace(c), c.is_whitespace(), "for {code:x}");
        }
    }
}

#[test]
fn hashes_are_those_of_blake3() {
    // The BLAKE3 hash of the empty input.
    assert_eq!(
        query_shape_hash(""),
        "af1349b9f5f9a1a6a0404dea36dcc9499bcb25c9adc112b7cc9a93cae41f3262"
    );
    let shape = normalize_query_shape("SELECT 1");
    assert_eq!(query_shape_hash("SELECT 1"), blake3::hash(shape.as_bytes()).to_hex().to_string());
    assert_ne!(query_shape_hash("SELECT 1"), query_shape_hash("SELECT a"));
}

#[test]
fn texts_that_differ_in_white_space_share_a_hash() {
    assert_eq!(query_shape_hash("not  sql"), query_shape_hash(" not\nsql "));
    assert_ne!(query_shape_hash("not sql"), query_shape_hash("notsql"));
}

#[test]
fn what_cannot_be_printed_has_its_white_space_collapsed() {
    for sql in [
        "CREATE EXTERNAL  TABLE t (a INT)",
        "PREPARE p AS  CREATE EXTERNAL TABLE t (a INT)",
        "SELECT 1;  CREATE EXTERNAL TABLE t (a INT)",
        "GRANT SELECT ON t  TO a GRANTED BY",
        "SELECT 1  2 GRANTED BY",
    ] {
        assert_eq!(normalize_query_shape(sql), collapse_whitespace(sql), "for {sql}");
        assert_eq!(query_shape_hash(sql).len(), 64);
    }
    assert_eq!(
        normalize_query_shape("GRANT SELECT ON  t TO a GRANTED BY b"),
        "GRANT SELECT ON t TO a GRANTED BY b"
    );
    assert_eq!(normalize_query_shape("SELECT GRANT,GRANTED BY,1"), "SELECT GRANT, GRANTED AS BY, ?");
}

#[test]
fn values_of_literals_do_not_matter() {
    let variants = [
        "SELECT a FROM t WHERE a = 1 AND b = 'x' AND c > DATE '2020-01-01' LIMIT 5",
        "select a from t where a = 'y' and b = null and c > date '1999-12-31' limit 50",
        "SELECT a FROM t WHERE a = true AND b = 2.5 AND c > DATE '' LIMIT 0",
    ];
    for sql in variants {
        assert_eq!(query_shape_hash(sql), query_shape_hash(variants[0]), "for {sql}");
    }
    assert_ne!(
        query_shape_hash("SELECT a FROM t WHERE a = 1 LIMIT 5"),
        query_shape_hash("SELECT a FROM t WHERE b = 1 LIMIT 5")
    );
    assert_ne!(
        normalize_query_shape("SELECT DATE '2020-01-01'"),
        normalize_query_shape("SELECT TIMESTAMP '2020-01-01'")
    );
}
