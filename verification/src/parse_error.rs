//! Parse errors, and the messages that a caller can act on.

use vstd::prelude::*;

use crate::refusal::{around, prefixed};
use crate::text::{contains_text, holds_text};

verus! {

/// Why a text is not SQL.
#[derive(Debug)]
pub enum ParserError {
    TokenizerError(String),
    ParserError(String),
    RecursionLimitExceeded,
}

pub enum ParserErrorModel {
    TokenizerError(Seq<char>),
    ParserError(Seq<char>),
    RecursionLimitExceeded,
}

impl ParserError {
    pub open spec fn model(self) -> ParserErrorModel {
        match self {
            ParserError::TokenizerError(s) => ParserErrorModel::TokenizerError(s@),
            ParserError::ParserError(s) => ParserErrorModel::ParserError(s@),
            ParserError::RecursionLimitExceeded => ParserErrorModel::RecursionLimitExceeded,
        }
    }
}

/// The text of a parse error.
pub open spec fn error_text(err: ParserErrorModel) -> Seq<char> {
    "sql parser error: "@ + match err {
        ParserErrorModel::TokenizerError(s) => s,
        ParserErrorModel::ParserError(s) => s,
        ParserErrorModel::RecursionLimitExceeded => "recursion limit exceeded"@,
    }
}

impl ParserError {
    /// The text of the error.
    pub fn text(&self) -> (r: String)
        ensures
            r@ == error_text(self.model()),
    {
        match self {
            ParserError::TokenizerError(s) => prefixed("sql parser error: ", s.as_str()),
            ParserError::ParserError(s) => prefixed("sql parser error: ", s.as_str()),
            ParserError::RecursionLimitExceeded => prefixed(
                "sql parser error: ",
                "recursion limit exceeded",
            ),
        }
    }
}

/// A text in lower case, by the Unicode rules of `str::to_lowercase`.
pub uninterp spec fn lowercased(text: Seq<char>) -> Seq<char>;

/// `str::to_lowercase` gives the Unicode lower case of the text, which is a
/// function of the text alone.
#[verifier::external_body]
fn unicode_lowercase(text: &str) -> (r: String)
    ensures
        r@ == lowercased(text@),
{
    text.to_lowercase()
}

/// The message for the text of a parse error, given the statement in lower
/// case.
pub open spec fn advice(err: Seq<char>, sql_lower: Seq<char>) -> Seq<char> {
    if holds_text(err, "Expected end of statement"@) {
        "Syntax error: "@ + err
            + ". Check for missing semicolons or unexpected characters."@
    } else if holds_text(err, "Expected SELECT"@) || holds_text(err, "Expected: SELECT"@) {
        "Query must start with SELECT (or WITH for CTEs)."@
    } else if holds_text(err, "Expected identifier"@) {
        err + ". Check for missing table/column names or typos in keywords."@
    } else if holds_text(err, "Unterminated string"@) {
        "Unterminated string literal. Check for missing closing quote (')."@
    } else if holds_text(err, "Expected: )"@) || holds_text(err, "Expected )"@) {
        err + ". Check for unbalanced parentheses."@
    } else if holds_text(sql_lower, "form "@) && !holds_text(sql_lower, "from "@) {
        err + ". Did you mean 'FROM' instead of 'FORM'?"@
    } else if holds_text(sql_lower, "wher "@) || holds_text(sql_lower, "wehre "@) {
        err + ". Did you mean 'WHERE'?"@
    } else if holds_text(sql_lower, "slect "@) || holds_text(sql_lower, "selct "@) {
        err + ". Did you mean 'SELECT'?"@
    } else {
        "SQL parse error: "@ + err
    }
}

/// The message for the text of a parse error, given the statement in lower
/// case.
pub fn humanize_error_text(err: &str, sql_lower: &str) -> (r: String)
    ensures
        r@ == advice(err@, sql_lower@),
{
    if contains_text(err, "Expected end of statement") {
        return around(
            "Syntax error: ",
            err,
            ". Check for missing semicolons or unexpected characters.",
        );
    }
    if contains_text(err, "Expected SELECT") || contains_text(err, "Expected: SELECT") {
        return "Query must start with SELECT (or WITH for CTEs).".to_string();
    }
    if contains_text(err, "Expected identifier") {
        return prefixed(
            err,
            ". Check for missing table/column names or typos in keywords.",
        );
    }
    if contains_text(err, "Unterminated string") {
        return "Unterminated string literal. Check for missing closing quote (').".to_string();
    }
    if contains_text(err, "Expected: )") || contains_text(err, "Expected )") {
        return prefixed(err, ". Check for unbalanced parentheses.");
    }
    if contains_text(sql_lower, "form ") && !contains_text(sql_lower, "from ") {
        return prefixed(err, ". Did you mean 'FROM' instead of 'FORM'?");
    }
    if contains_text(sql_lower, "wher ") || contains_text(sql_lower, "wehre ") {
        return prefixed(err, ". Did you mean 'WHERE'?");
    }
    if contains_text(sql_lower, "slect ") || contains_text(sql_lower, "selct ") {
        return prefixed(err, ". Did you mean 'SELECT'?");
    }
    prefixed("SQL parse error: ", err)
}

/// Map parse errors to messages a caller can act on.
pub fn humanize_parse_error(err: ParserError, sql: &str) -> (r: String)
    ensures
        r@ == advice(error_text(err.model()), lowercased(sql@)),
{
    humanize_error_text(err.text().as_str(), unicode_lowercase(sql).as_str())
}

} // verus!
