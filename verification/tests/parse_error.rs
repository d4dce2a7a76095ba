//! Messages for parse errors.

use pg_query_gate::parse_error::humanize_error_text;
use pg_query_gate::{humanize_parse_error, ParserError};

fn message(err: &str, sql: &str) -> String {
    humanize_parse_error(ParserError::ParserError(err.to_string()), sql)
}

#[test]
fn error_texts_carry_their_origin() {
    assert_eq!(ParserError::TokenizerError("a".to_string()).text(), "sql parser error: a");
    assert_eq!(ParserError::ParserError("b".to_string()).text(), "sql parser error: b");
    assert_eq!(
        ParserError::RecursionLimitExceeded.text(),
        "sql parser error: recursion limit exceeded"
    );
}

#[test]
fn each_kind_of_error_has_its_message() {
    assert_eq!(
        message("Expected end of statement, found: x", "SELECT 1 x"),
        "Syntax error: sql parser error: Expected end of statement, found: x. Check for missing semicolons or unexpected characters."
    );
    for err in ["Expected SELECT, found: x", "Expected: SELECT, found: x"] {
        assert_eq!(message(err, ""), "Query must start with SELECT (or WITH for CTEs).");
    }
    assert_eq!(
        message("Expected identifier, found: 1", ""),
        "sql parser error: Expected identifier, found: 1. Check for missing table/column names or typos in keywords."
    );
    assert_eq!(
        message("Unterminated string literal", ""),
        "Unterminated string literal. Check for missing closing quote (')."
    );
    for err in ["Expected: ), found: EOF", "Expected ), found: EOF"] {
        assert_eq!(
            message(err, ""),
            format!("sql parser error: {err}. Check for unbalanced parentheses.")
        );
    }
    assert_eq!(message("x", "SELECT 1"), "SQL parse error: sql parser error: x");
}

#[test]
fn misspelt_keywords_are_pointed_out() {
    assert_eq!(
        message("x", "SELECT * FORM t"),
        "sql parser error: x. Did you mean 'FROM' instead of 'FORM'?"
    );
    assert_eq!(message("x", "SELECT FORM FROM t"), "SQL parse error: sql parser error: x");
    assert_eq!(message("x", "from t wher a"), "sql parser error: x. Did you mean 'WHERE'?");
    assert_eq!(message("x", "from t wehre a"), "sql parser error: x. Did you mean 'WHERE'?");
    assert_eq!(message("x", "SLECT 1"), "sql parser error: x. Did you mean 'SELECT'?");
    assert_eq!(message("x", "Selct 1"), "sql parser error: x. Did you mean 'SELECT'?");
}

#[test]
fn statements_are_searched_in_unicode_lower_case() {
    // U+212A KELVIN SIGN has the lower case `k`; no ASCII folding finds it.
    assert_eq!(humanize_error_text("x", "k"), "SQL parse error: x");
    assert_eq!(message("x", "WHER A"), "sql parser error: x. Did you mean 'WHERE'?");
    assert_eq!(humanize_error_text("x", "WHER A"), "SQL parse error: x");
}
