//! Laws on parse errors: what is said of an error, and which advice is given.

use vstd::prelude::*;

use crate::parse_error::{advice, error_text, ParserError, ParserErrorModel};
use crate::text::holds_text;

verus! {

/// The text of an error is what the parser said, whole, after one prefix.
pub proof fn law_error_texts(said: Seq<char>, owned: String)
    ensures
        error_text(ParserErrorModel::TokenizerError(said)) == "sql parser error: "@ + said,
        error_text(ParserErrorModel::ParserError(said)) == "sql parser error: "@ + said,
        error_text(ParserErrorModel::RecursionLimitExceeded)
            == "sql parser error: recursion limit exceeded"@,
        ParserError::TokenizerError(owned).model() == ParserErrorModel::TokenizerError(owned@),
        ParserError::ParserError(owned).model() == ParserErrorModel::ParserError(owned@),
        ParserError::RecursionLimitExceeded.model() == ParserErrorModel::RecursionLimitExceeded,
{
    reveal_strlit("sql parser error: ");
    reveal_strlit("recursion limit exceeded");
    reveal_strlit("sql parser error: recursion limit exceeded");
    assert("sql parser error: "@ + "recursion limit exceeded"@
        =~= "sql parser error: recursion limit exceeded"@);
}

/// The error says one of the things that need no look at the statement.
pub open spec fn speaks_for_itself(err: Seq<char>) -> bool {
    ||| holds_text(err, "Expected end of statement"@)
    ||| holds_text(err, "Expected SELECT"@)
    ||| holds_text(err, "Expected: SELECT"@)
    ||| holds_text(err, "Expected identifier"@)
    ||| holds_text(err, "Unterminated string"@)
    ||| holds_text(err, "Expected: )"@)
    ||| holds_text(err, "Expected )"@)
}

/// Advice on an error that speaks for itself does not depend on the statement.
pub proof fn law_clear_errors_need_no_statement(err: Seq<char>, a: Seq<char>, b: Seq<char>)
    requires
        speaks_for_itself(err),
    ensures
        advice(err, a) == advice(err, b),
{
}

/// Which advice is given for an error that speaks for itself: what is named
/// first here comes first.
pub proof fn law_advice_on_errors(err: Seq<char>, sql: Seq<char>)
    ensures
        holds_text(err, "Expected end of statement"@) ==> advice(err, sql) == "Syntax error: "@
            + err + ". Check for missing semicolons or unexpected characters."@,
        !holds_text(err, "Expected end of statement"@) && (holds_text(err, "Expected SELECT"@)
            || holds_text(err, "Expected: SELECT"@)) ==> advice(err, sql)
            == "Query must start with SELECT (or WITH for CTEs)."@,
        !holds_text(err, "Expected end of statement"@) && !holds_text(err, "Expected SELECT"@)
            && !holds_text(err, "Expected: SELECT"@) && holds_text(err, "Expected identifier"@)
            ==> advice(err, sql) == err
            + ". Check for missing table/column names or typos in keywords."@,
        !holds_text(err, "Expected end of statement"@) && !holds_text(err, "Expected SELECT"@)
            && !holds_text(err, "Expected: SELECT"@) && !holds_text(err, "Expected identifier"@)
            && holds_text(err, "Unterminated string"@) ==> advice(err, sql)
            == "Unterminated string literal. Check for missing closing quote (')."@,
        !holds_text(err, "Expected end of statement"@) && !holds_text(err, "Expected SELECT"@)
            && !holds_text(err, "Expected: SELECT"@) && !holds_text(err, "Expected identifier"@)
            && !holds_text(err, "Unterminated string"@) && (holds_text(err, "Expected: )"@)
            || holds_text(err, "Expected )"@)) ==> advice(err, sql) == err
            + ". Check for unbalanced parentheses."@,
{
}

/// Which advice is given for any other error: the statement is looked at for
/// misspelt keywords, and without one the error is passed on whole.
pub proof fn law_advice_on_statements(err: Seq<char>, sql: Seq<char>)
    requires
        !speaks_for_itself(err),
    ensures
        ({
            let misses_from = holds_text(sql, "form "@) && !holds_text(sql, "from "@);
            let misspells_where = holds_text(sql, "wher "@) || holds_text(sql, "wehre "@);
            let misspells_select = holds_text(sql, "slect "@) || holds_text(sql, "selct "@);
            &&& misses_from ==> advice(err, sql) == err
                + ". Did you mean 'FROM' instead of 'FORM'?"@
            &&& !misses_from && misspells_where ==> advice(err, sql) == err
                + ". Did you mean 'WHERE'?"@
            &&& !misses_from && !misspells_where && misspells_select ==> advice(err, sql) == err
                + ". Did you mean 'SELECT'?"@
            &&& !misses_from && !misspells_where && !misspells_select ==> advice(err, sql)
                == "SQL parse error: "@ + err
        }),
{
}

} // verus!
