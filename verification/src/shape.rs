//! Query shape hashing: one hash for all statements that differ only in
//! literals.

use sqlparser::ast;
use std::ops::ControlFlow;
use vstd::prelude::*;

use crate::reader::{parse_result, parse_text};
use crate::sql::{
    condition_model, condition_parts, expressions_of, statement_expressions, ConditionParts,
};
use crate::text::{join, joined, same_text, texts};
use crate::tree::ConditionModel;

verus! {

/// The character is white space: it has the Unicode property `White_Space`.
pub open spec fn is_white(c: char) -> bool {
    ||| '\u{9}' <= c <= '\u{d}'
    ||| c == ' '
    ||| c == '\u{85}'
    ||| c == '\u{a0}'
    ||| c == '\u{1680}'
    ||| '\u{2000}' <= c <= '\u{200a}'
    ||| c == '\u{2028}'
    ||| c == '\u{2029}'
    ||| c == '\u{202f}'
    ||| c == '\u{205f}'
    ||| c == '\u{3000}'
}

/// The longest runs of characters that are not white space, in order.
pub open spec fn words(s: Seq<char>) -> Seq<Seq<char>>
    decreases s.len(),
{
    if s.len() == 0 {
        Seq::empty()
    } else {
        let before = words(s.drop_last());
        if is_white(s.last()) {
            before
        } else if s.len() > 1 && !is_white(s[s.len() - 2]) {
            before.drop_last().push(before.last().push(s.last()))
        } else {
            before.push(seq![s.last()])
        }
    }
}

/// The words of a text with one space between each two.
pub open spec fn collapsed(s: Seq<char>) -> Seq<char> {
    joined(words(s), " "@)
}

/// A literal with its value replaced by a placeholder that holds the mark, or,
/// in a string with a type, by the mark itself; anything else as it is.
pub open spec fn marked(c: ConditionModel, mark: Seq<char>) -> ConditionModel {
    match c {
        ConditionModel::Value { .. } => ConditionModel::Value {
            boolean: None,
            placeholder: true,
            text: mark,
        },
        ConditionModel::Introduced { introducer, .. } => ConditionModel::Introduced {
            introducer,
            placeholder: true,
            text: mark,
        },
        ConditionModel::Typed { data_type, .. } => ConditionModel::Typed { data_type, value: mark },
        other => other,
    }
}

/// The expression is a literal.
pub open spec fn is_literal(c: ConditionModel) -> bool {
    c is Value || c is Introduced || c is Typed
}

/// Statements with every literal in them marked.
pub uninterp spec fn marked_statements(statements: Seq<ast::Statement>, mark: Seq<char>) -> Seq<
    ast::Statement,
>;

/// Every statement in a statement, itself among them.
pub uninterp spec fn statements_of(statement: ast::Statement) -> Seq<ast::Statement>;

/// Of a CREATE TABLE, whether the table is external and whether it has a
/// location.
pub uninterp spec fn storage_of(statement: ast::Statement) -> Option<(bool, bool)>;

/// The literal, if it is one, has the mark for its value.
pub open spec fn literal_is_marked(c: ConditionModel, mark: Seq<char>) -> bool {
    is_literal(c) ==> c == marked(c, mark)
}

/// No literal in the statements has a value but the mark.
pub open spec fn no_value_left(statements: Seq<ast::Statement>, mark: Seq<char>) -> bool {
    forall|i: int|
        0 <= i < expressions_of(statements).len() ==> literal_is_marked(
            condition_model(#[trigger] expressions_of(statements)[i]),
            mark,
        )
}

/// No external table without a location stands in the statement.
pub open spec fn printable(statement: ast::Statement) -> bool {
    forall|i: int|
        0 <= i < statements_of(statement).len() ==> storage_of(
            #[trigger] statements_of(statement)[i],
        ) != Some((true, false))
}

/// Every statement is printable.
pub open spec fn all_printable(statements: Seq<ast::Statement>) -> bool {
    forall|i: int| 0 <= i < statements.len() ==> printable(#[trigger] statements[i])
}

/// The statements differ in the values of literals alone: they become the same
/// once every literal carries one and the same mark.
pub open spec fn literal_variants(a: Seq<ast::Statement>, b: Seq<ast::Statement>) -> bool {
    exists|mark: Seq<char>| #[trigger] marked_statements(a, mark) == marked_statements(b, mark)
}

/// A statement as it is printed.
pub uninterp spec fn printed_statement(statement: ast::Statement) -> Seq<char>;

/// The BLAKE3 hash of the UTF-8 bytes of a text, in hexadecimal.
pub uninterp spec fn blake3_hex(text: Seq<char>) -> Seq<char>;

/// A lower-case hexadecimal digit.
pub open spec fn is_hex(c: char) -> bool {
    '0' <= c <= '9' || 'a' <= c <= 'f'
}

/// The shape of printed statements.
pub open spec fn statements_shape(printed: Seq<Seq<char>>) -> Seq<char> {
    joined(printed, "; "@)
}

/// The text is SQL whose statements can be printed once scrubbed.
pub open spec fn has_shape(sql: Seq<char>) -> bool {
    parse_result(sql) matches Ok(statements) && all_printable(
        marked_statements(statements, "?"@),
    )
}

/// The shape of a text: its statements with their literals scrubbed, or the
/// text with its white space collapsed if it is not SQL that can be printed.
pub open spec fn query_shape(sql: Seq<char>) -> Seq<char> {
    if has_shape(sql) {
        statements_shape(
            marked_statements(parse_result(sql)->Ok_0, "?"@).map_values(
                |s: ast::Statement| printed_statement(s),
            ),
        )
    } else {
        collapsed(sql)
    }
}

/// Assigns `Value::Placeholder` to the value of an `Expr::Value`; a placeholder
/// is printed as its text.
#[verifier::external_body]
fn set_value(expr: &mut ast::Expr, mark: &str)
    requires
        condition_model(*old(expr)) is Value,
    ensures
        condition_model(*final(expr)) == marked(condition_model(*old(expr)), mark@),
{
    if let ast::Expr::Value(value) = expr {
        *value = ast::Value::Placeholder(mark.to_string());
    }
}

/// Assigns `Value::Placeholder` to the value of an `Expr::IntroducedString`,
/// whose introducer is kept.
#[verifier::external_body]
fn set_introduced(expr: &mut ast::Expr, mark: &str)
    requires
        condition_model(*old(expr)) is Introduced,
    ensures
        condition_model(*final(expr)) == marked(condition_model(*old(expr)), mark@),
{
    if let ast::Expr::IntroducedString { value, .. } = expr {
        *value = ast::Value::Placeholder(mark.to_string());
    }
}

/// Assigns the value of an `Expr::TypedString`, whose type is kept.
#[verifier::external_body]
fn set_typed(expr: &mut ast::Expr, mark: &str)
    requires
        condition_model(*old(expr)) is Typed,
    ensures
        condition_model(*final(expr)) == marked(condition_model(*old(expr)), mark@),
{
    if let ast::Expr::TypedString { value, .. } = expr {
        *value = mark.to_string();
    }
}

/// The forms of a literal.
enum LiteralForm {
    Value,
    Introduced,
    Typed,
    Other,
}

/// Tells apart the variants of `Expr` that are literals.
#[verifier::external_body]
fn literal_form(expr: &ast::Expr) -> (r: LiteralForm)
    ensures
        r is Value <==> condition_model(*expr) is Value,
        r is Introduced <==> condition_model(*expr) is Introduced,
        r is Typed <==> condition_model(*expr) is Typed,
{
    match expr {
        ast::Expr::Value(_) => LiteralForm::Value,
        ast::Expr::IntroducedString { .. } => LiteralForm::Introduced,
        ast::Expr::TypedString { .. } => LiteralForm::Typed,
        _ => LiteralForm::Other,
    }
}

/// Replaces the value of a literal by a mark, and leaves any other expression
/// as it is.
fn mark_literal(expr: &mut ast::Expr, mark: &str)
    ensures
        condition_model(*final(expr)) == marked(condition_model(*old(expr)), mark@),
        !is_literal(condition_model(*old(expr))) ==> *final(expr) == *old(expr),
{
    match literal_form(expr) {
        LiteralForm::Value => set_value(expr, mark),
        LiteralForm::Introduced => set_introduced(expr, mark),
        LiteralForm::Typed => set_typed(expr, mark),
        LiteralForm::Other => {},
    }
}

/// Replaces the value of a literal by a placeholder, and leaves any other
/// expression as it is.
pub fn scrub_literal_expression(expr: &mut ast::Expr)
    ensures
        condition_model(*final(expr)) == marked(condition_model(*old(expr)), "?"@),
        !is_literal(condition_model(*old(expr))) ==> *final(expr) == *old(expr),
{
    mark_literal(expr, "?")
}

/// `visit_expressions_mut` hands every expression that `visit_expressions`
/// would visit to `mark_literal`, once and in place: each literal has the mark
/// for its value, what is no literal does not become one, and nothing else
/// changes. So statements that come out the same under one mark differed in
/// the values of literals alone, and come out the same under any other.
#[verifier::external_body]
fn mark_statements(statements: &mut Vec<ast::Statement>, mark: &str)
    ensures
        final(statements)@ == marked_statements(old(statements)@, mark@),
        final(statements)@.len() == old(statements)@.len(),
        expressions_of(final(statements)@).len() == expressions_of(old(statements)@).len(),
        forall|i: int|
            0 <= i < expressions_of(final(statements)@).len() ==> {
                let before = condition_model(expressions_of(old(statements)@)[i]);
                let after = condition_model(#[trigger] expressions_of(final(statements)@)[i]);
                &&& is_literal(after) == is_literal(before)
                &&& is_literal(before) ==> after == marked(before, mark@)
            },
        forall|other: Seq<ast::Statement>, m: Seq<char>| #[trigger]
            marked_statements(other, m) == marked_statements(old(statements)@, m)
                ==> marked_statements(other, mark@) == final(statements)@,
{
    let _ = ast::visit_expressions_mut(
        statements,
        |expr: &mut ast::Expr|
            {
                mark_literal(expr, mark);
                ControlFlow::<()>::Continue(())
            },
    );
}

/// `visit_statements` hands over every statement in the statement.
#[verifier::external_body]
fn statements_in(statement: &ast::Statement) -> (r: Vec<ast::Statement>)
    ensures
        r@ == statements_of(*statement),
{
    let mut found: Vec<ast::Statement> = Vec::new();
    let _ = ast::visit_statements(
        statement,
        |s: &ast::Statement|
            {
                found.push(s.clone());
                ControlFlow::<()>::Continue(())
            },
    );
    found
}

/// Reads two fields of a `CreateTable`.
#[verifier::external_body]
fn table_storage(statement: &ast::Statement) -> (r: Option<(bool, bool)>)
    ensures
        r == storage_of(*statement),
{
    match statement {
        ast::Statement::CreateTable(table) => Some((table.external, table.location.is_some())),
        _ => None,
    }
}

/// Whether no external table without a location stands in the statement.
fn can_print(statement: &ast::Statement) -> (r: bool)
    ensures
        r == printable(*statement),
{
    let found = statements_in(statement);
    let mut i: usize = 0;
    while i < found.len()
        invariant
            i <= found.len(),
            found@ == statements_of(*statement),
            forall|j: int| 0 <= j < i ==> storage_of(#[trigger] found@[j]) != Some((true, false)),
        decreases found.len() - i,
    {
        if let Some((external, located)) = table_storage(&found[i]) {
            if external && !located {
                assert(storage_of(statements_of(*statement)[i as int]) == Some((true, false)));
                return false;
            }
        }
        i += 1;
    }
    true
}

/// Whether every statement is printable.
fn can_print_all(statements: &Vec<ast::Statement>) -> (r: bool)
    ensures
        r == all_printable(statements@),
{
    let mut i: usize = 0;
    while i < statements.len()
        invariant
            i <= statements.len(),
            forall|j: int| 0 <= j < i ==> printable(#[trigger] statements@[j]),
        decreases statements.len() - i,
    {
        if !can_print(&statements[i]) {
            return false;
        }
        i += 1;
    }
    true
}

/// Whether the literal, if it is one, has the mark for its value.
fn is_marked(expr: &ast::Expr, mark: &str) -> (r: bool)
    ensures
        r == literal_is_marked(condition_model(*expr), mark@),
{
    match condition_parts(expr) {
        ConditionParts::Boolean(_, _) | ConditionParts::Value(_) => false,
        ConditionParts::Introduced(_, _) => false,
        ConditionParts::Placeholder(held) => same_text(held.as_str(), mark),
        ConditionParts::IntroducedPlaceholder(_, held) => same_text(held.as_str(), mark),
        ConditionParts::Typed(_, value) => same_text(value.as_str(), mark),
        _ => true,
    }
}

/// Whether no literal in the statements has a value but the mark.
fn holds_no_value(statements: &Vec<ast::Statement>, mark: &str) -> (r: bool)
    ensures
        r == no_value_left(statements@, mark@),
{
    let found = statement_expressions(statements);
    let mut i: usize = 0;
    while i < found.len()
        invariant
            i <= found.len(),
            found@ == expressions_of(statements@),
            forall|j: int|
                0 <= j < i ==> literal_is_marked(condition_model(#[trigger] found@[j]), mark@),
        decreases found.len() - i,
    {
        if !is_marked(&found[i], mark) {
            assert(!literal_is_marked(
                condition_model(expressions_of(statements@)[i as int]),
                mark@,
            ));
            return false;
        }
        i += 1;
    }
    true
}

/// `Display` of a `Statement` that the parser built, marked or not. It panics
/// on an external table without a location.
#[verifier::external_body]
fn statement_text(statement: &ast::Statement) -> (r: String)
    requires
        printable(*statement),
    ensures
        r@ == printed_statement(*statement),
{
    statement.to_string()
}

/// `blake3::hash` of the bytes of the text, written out by `to_hex`: 64
/// lower-case hexadecimal digits.
#[verifier::external_body]
fn hash_hex(text: &str) -> (r: String)
    ensures
        r@ == blake3_hex(text@),
        r@.len() == 64,
        forall|i: int| 0 <= i < r@.len() ==> is_hex(#[trigger] r@[i]),
{
    blake3::hash(text.as_bytes()).to_hex().to_string()
}

/// Whether the character is white space.
pub fn is_whitespace(c: char) -> (r: bool)
    ensures
        r == is_white(c),
{
    ('\u{9}' <= c && c <= '\u{d}') || c == ' ' || c == '\u{85}' || c == '\u{a0}' || c == '\u{1680}'
        || ('\u{2000}' <= c && c <= '\u{200a}') || c == '\u{2028}' || c == '\u{2029}' || c
        == '\u{202f}' || c == '\u{205f}' || c == '\u{3000}'
}

/// A word is open at the end of the text.
pub open spec fn in_word(s: Seq<char>) -> bool {
    s.len() > 0 && !is_white(s.last())
}

/// The text with its white space collapsed to single spaces between words.
pub fn collapse_whitespace(sql: &str) -> (r: String)
    ensures
        r@ == collapsed(sql@),
{
    let mut closed: Vec<String> = Vec::new();
    let mut current = String::new();
    let mut open = false;
    for c in iter: sql.chars()
        invariant
            iter.seq() == sql@,
            open == in_word(sql@.take(iter.index() as int)),
            open ==> words(sql@.take(iter.index() as int)) =~= texts(closed@).push(current@),
            !open ==> words(sql@.take(iter.index() as int)) =~= texts(closed@) && current@.len()
                == 0,
    {
        let ghost before = sql@.take(iter.index() as int);
        let ghost after = sql@.take(iter.index() + 1);
        assert(after.drop_last() =~= before);
        assert(after.last() == c);
        if is_whitespace(c) {
            if open {
                let ghost earlier = closed@;
                closed.push(current);
                assert(texts(closed@) =~= texts(earlier).push(current@));
                current = String::new();
                open = false;
            }
        } else {
            let ghost word = current@;
            current.push(c);
            if open {
                assert(texts(closed@).push(word).drop_last() =~= texts(closed@));
            } else {
                assert(word.push(c) =~= seq![c]);
            }
            open = true;
        }
    }
    assert(sql@.take(sql@.len() as int) =~= sql@);
    if open {
        let ghost earlier = closed@;
        closed.push(current);
        assert(texts(closed@) =~= texts(earlier).push(current@));
    }
    join(&closed, " ")
}

/// The shape of printed statements.
pub fn shape_of_statements(printed: &Vec<String>) -> (r: String)
    ensures
        r@ == statements_shape(texts(printed@)),
{
    join(printed, "; ")
}

/// The shape of a text: its statements with their literals scrubbed, or the
/// text with its white space collapsed if it is not SQL that can be printed.
///
/// No value of a literal is left in the shape, so texts whose statements differ
/// in the values of literals alone share one.
pub fn normalize_query_shape(sql: &str) -> (r: String)
    ensures
        r@ == query_shape(sql@),
        parse_result(sql@) matches Ok(statements) ==> no_value_left(
            marked_statements(statements, "?"@),
            "?"@,
        ),
        has_shape(sql@) ==> forall|other: Seq<char>| #[trigger]
            parse_result(other) is Ok && literal_variants(
                parse_result(other)->Ok_0,
                parse_result(sql@)->Ok_0,
            ) ==> query_shape(other) == r@,
{
    match parse_text(sql) {
        Err(_) => collapse_whitespace(sql),
        Ok(found) => {
            let ghost written = found@;
            let mut statements = found;
            mark_statements(&mut statements, "?");
            assert(no_value_left(statements@, "?"@)) by {
                assert forall|i: int|
                    0 <= i < expressions_of(statements@).len() implies literal_is_marked(
                    condition_model(#[trigger] expressions_of(statements@)[i]),
                    "?"@,
                ) by {
                    let before = condition_model(expressions_of(written)[i]);
                    law_scrubbing_is_stable(before, "?"@);
                }
            }
            // Only statements that hold no value any more are ever printed. This is
            // looked at here, whatever is believed of the walk that marks them.
            if !holds_no_value(&statements, "?") || !can_print_all(&statements) {
                return collapse_whitespace(sql);
            }
            let mut printed: Vec<String> = Vec::new();
            let mut i: usize = 0;
            while i < statements.len()
                invariant
                    i <= statements.len(),
                    printed.len() == i,
                    all_printable(statements@),
                    forall|j: int|
                        0 <= j < i ==> (#[trigger] printed@[j])@ == printed_statement(
                            statements@[j],
                        ),
                decreases statements.len() - i,
            {
                printed.push(statement_text(&statements[i]));
                i += 1;
            }
            assert(texts(printed@) =~= statements@.map_values(
                |s: ast::Statement| printed_statement(s),
            ));
            shape_of_statements(&printed)
        },
    }
}

/// Build a stable literal-scrubbed hash for grouping similar query shapes.
///
/// This is intentionally lighter-weight than PostgreSQL's `queryid`: it uses
/// the parsed statements when possible, replaces literal leaves with
/// placeholders, renders the statements back to canonical SQL, and hashes the
/// result with blake3. When parsing fails, or a statement cannot be rendered,
/// it falls back to whitespace-normalized raw SQL so the caller still gets a
/// stable string for logging and offline cohort analysis.
pub fn query_shape_hash(sql: &str) -> (r: String)
    ensures
        r@ == blake3_hex(query_shape(sql@)),
        parse_result(sql@) matches Ok(statements) ==> no_value_left(
            marked_statements(statements, "?"@),
            "?"@,
        ),
        has_shape(sql@) ==> forall|other: Seq<char>| #[trigger]
            parse_result(other) is Ok && literal_variants(
                parse_result(other)->Ok_0,
                parse_result(sql@)->Ok_0,
            ) ==> blake3_hex(query_shape(other)) == r@,
        r@.len() == 64,
        forall|i: int| 0 <= i < r@.len() ==> is_hex(#[trigger] r@[i]),
{
    hash_hex(normalize_query_shape(sql).as_str())
}

/// No white space stands in the word, and it is not empty.
pub open spec fn is_word(w: Seq<char>) -> bool {
    w.len() > 0 && forall|i: int| 0 <= i < w.len() ==> !is_white(#[trigger] w[i])
}

/// Every word of a text is one.
pub(crate) proof fn lemma_words_are_words(s: Seq<char>)
    ensures
        forall|i: int| 0 <= i < words(s).len() ==> is_word(#[trigger] words(s)[i]),
        in_word(s) ==> words(s).len() > 0,
    decreases s.len(),
{
    if s.len() > 0 {
        lemma_words_are_words(s.drop_last());
        let before = words(s.drop_last());
        if !is_white(s.last()) && s.len() > 1 && !is_white(s[s.len() - 2]) {
            assert(in_word(s.drop_last()));
            assert(is_word(before.last()));
        }
    }
}

/// A word after a text that does not end in a word is one word more.
pub(crate) proof fn lemma_words_append(s: Seq<char>, w: Seq<char>)
    requires
        !in_word(s),
        is_word(w),
    ensures
        words(s + w) == words(s).push(w),
        in_word(s + w),
    decreases w.len(),
{
    let t = s + w;
    assert(t.drop_last() =~= s + w.drop_last());
    assert(t.last() == w.last());
    if w.len() == 1 {
        assert(s + w.drop_last() =~= s);
        assert(w =~= seq![w.last()]);
        if t.len() > 1 {
            assert(t[t.len() - 2] == s.last());
        }
    } else {
        lemma_words_append(s, w.drop_last());
        assert(t[t.len() - 2] == w[w.len() - 2]);
        assert(w.drop_last().push(w.last()) =~= w);
        assert(words(s).push(w.drop_last()).drop_last() =~= words(s));
    }
}

/// The words of words with spaces between them are those words.
proof fn lemma_words_of_joined(ws: Seq<Seq<char>>)
    requires
        forall|i: int| 0 <= i < ws.len() ==> is_word(#[trigger] ws[i]),
    ensures
        words(joined(ws, " "@)) == ws,
        ws.len() > 0 ==> in_word(joined(ws, " "@)),
    decreases ws.len(),
{
    reveal_strlit(" ");
    if ws.len() == 0 {
        assert(words(joined(ws, " "@)) =~= ws);
    } else if ws.len() == 1 {
        lemma_words_append(Seq::empty(), ws[0]);
        assert(Seq::<char>::empty() + ws[0] =~= ws[0]);
        assert(words(ws[0]) =~= ws);
    } else {
        let front = joined(ws.drop_last(), " "@);
        lemma_words_of_joined(ws.drop_last());
        let spaced = front + " "@;
        assert(spaced.drop_last() =~= front);
        assert(words(spaced) == words(front));
        lemma_words_append(spaced, ws.last());
        assert(ws.drop_last().push(ws.last()) =~= ws);
    }
}

/// Collapsing white space keeps the words, and doing it again changes nothing.
pub proof fn law_collapsing_is_stable(s: Seq<char>)
    ensures
        words(collapsed(s)) == words(s),
        collapsed(collapsed(s)) == collapsed(s),
{
    lemma_words_are_words(s);
    lemma_words_of_joined(words(s));
}

/// Texts that are no SQL and differ only in white space have one shape.
pub proof fn law_whitespace_variants_share_a_shape(a: Seq<char>, b: Seq<char>)
    requires
        parse_result(a) is Err,
        parse_result(b) is Err,
        words(a) == words(b),
    ensures
        query_shape(a) == query_shape(b),
        blake3_hex(query_shape(a)) == blake3_hex(query_shape(b)),
{
}

/// Scrubbing forgets what a literal says: literals of one form, with the same
/// introducer or type, become the same.
pub proof fn law_scrubbing_forgets_values(a: ConditionModel, b: ConditionModel, mark: Seq<char>)
    requires
        match (a, b) {
            (ConditionModel::Value { .. }, ConditionModel::Value { .. }) => true,
            (
                ConditionModel::Introduced { introducer: x, .. },
                ConditionModel::Introduced { introducer: y, .. },
            ) => x == y,
            (
                ConditionModel::Typed { data_type: x, .. },
                ConditionModel::Typed { data_type: y, .. },
            ) => x == y,
            _ => false,
        },
    ensures
        marked(a, mark) == marked(b, mark),
{
}

/// Scrubbing a scrubbed literal changes nothing.
pub proof fn law_scrubbing_is_stable(c: ConditionModel, mark: Seq<char>)
    ensures
        marked(marked(c, mark), mark) == marked(c, mark),
{
}

} // verus!
