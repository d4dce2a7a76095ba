//! Laws on query shapes: nothing of a printed statement is lost in its shape,
//! and of a text that is no SQL nothing but white space.

use sqlparser::ast;
use vstd::prelude::*;

use crate::reader::parse_result;
use crate::shape::{
    all_printable, collapsed, has_shape, in_word, is_hex, is_literal, is_white, is_word,
    lemma_words_append, lemma_words_are_words, literal_is_marked, marked, marked_statements,
    no_value_left, printable, printed_statement, query_shape, statements_of, statements_shape,
    storage_of, words,
};
use crate::sql::{condition_model, expressions_of};
use crate::text_laws::law_joining_concatenates;
use crate::tree::ConditionModel;

verus! {

/// The texts are the statements as they are printed, one for one.
pub open spec fn are_the_prints_of(prints: Seq<Seq<char>>, statements: Seq<ast::Statement>) -> bool {
    &&& prints.len() == statements.len()
    &&& forall|i: int|
        0 <= i < statements.len() ==> #[trigger] prints[i] == printed_statement(statements[i])
}

/// One statement is its own shape, whatever its length. Each further one adds
/// a semicolon, a space and itself, and takes nothing away.
pub proof fn law_shapes_keep_every_statement(printed: Seq<Seq<char>>, next: Seq<char>)
    ensures
        statements_shape(Seq::empty()) == Seq::<char>::empty(),
        statements_shape(seq![next]) == next,
        printed.len() > 0 ==> statements_shape(printed.push(next)) == statements_shape(printed) + seq![
            ';',
            ' ',
        ] + next,
{
    reveal_strlit("; ");
    assert("; "@ =~= seq![';', ' ']);
    if printed.len() > 0 {
        assert(printed.push(next).drop_last() =~= printed);
    }
}

/// Every printed statement stands in the shape, whole.
pub proof fn law_shapes_hold_every_statement(printed: Seq<Seq<char>>, i: int)
    requires
        0 <= i < printed.len(),
    ensures
        exists|start: int| #[trigger] starts_at(statements_shape(printed), printed[i], start),
    decreases printed.len(),
{
    reveal_strlit("; ");
    let whole = statements_shape(printed);
    if printed.len() == 1 {
        assert(whole.subrange(0, printed[i].len() as int) =~= printed[i]);
        assert(starts_at(whole, printed[i], 0));
    } else {
        let rest = printed.drop_last();
        let front = statements_shape(rest);
        assert(whole == front + "; "@ + printed.last());
        if i == printed.len() - 1 {
            let start = front.len() as int + 2;
            assert(whole.subrange(start, start + printed[i].len()) =~= printed[i]);
            assert(starts_at(whole, printed[i], start));
        } else {
            law_shapes_hold_every_statement(rest, i);
            let start = choose|start: int| #[trigger] starts_at(front, rest[i], start);
            assert(whole.subrange(start, start + printed[i].len()) =~= front.subrange(
                start,
                start + rest[i].len(),
            ));
            assert(starts_at(whole, printed[i], start));
        }
    }
}

/// The part stands in the text from the position on.
pub open spec fn starts_at(s: Seq<char>, part: Seq<char>, start: int) -> bool {
    &&& 0 <= start
    &&& start + part.len() <= s.len()
    &&& s.subrange(start, start + part.len()) == part
}

/// A text has the shape of its statements exactly if it can be read and no
/// external table without a location stands anywhere in them once scrubbed.
pub proof fn law_what_has_a_shape(sql: Seq<char>)
    ensures
        parse_result(sql) is Err ==> !has_shape(sql),
        parse_result(sql) matches Ok(statements) ==> (has_shape(sql) <==> {
            let scrubbed = marked_statements(statements, seq!['?']);
            forall|i: int, j: int|
                #![trigger statements_of(scrubbed[i])[j]]
                0 <= i < scrubbed.len() && 0 <= j < statements_of(scrubbed[i]).len() ==> (
                storage_of(statements_of(scrubbed[i])[j]) matches Some((external, located))
                    ==> !external || located)
        }),
{
    reveal_strlit("?");
    assert("?"@ =~= seq!['?']);
    if let Ok(statements) = parse_result(sql) {
        let scrubbed = marked_statements(statements, seq!['?']);
        if has_shape(sql) {
            assert forall|i: int, j: int|
                #![trigger statements_of(scrubbed[i])[j]]
                0 <= i < scrubbed.len() && 0 <= j < statements_of(scrubbed[i]).len() implies (
            storage_of(statements_of(scrubbed[i])[j]) matches Some((external, located))
                ==> !external || located) by {
                assert(printable(scrubbed[i]));
            }
        } else {
            assert(!all_printable(scrubbed));
            let i = choose|i: int| 0 <= i < scrubbed.len() && !printable(#[trigger] scrubbed[i]);
            let inner = statements_of(scrubbed[i]);
            let j = choose|j: int|
                0 <= j < inner.len() && storage_of(#[trigger] inner[j]) == Some((true, false));
            assert(storage_of(statements_of(scrubbed[i])[j]) == Some((true, false)));
        }
    }
}

/// The shape of a text that has one is the shape of its scrubbed statements as
/// they are printed, all of them.
pub proof fn law_shapes_are_of_scrubbed_statements(sql: Seq<char>, prints: Seq<Seq<char>>)
    requires
        has_shape(sql),
        are_the_prints_of(prints, marked_statements(parse_result(sql)->Ok_0, seq!['?'])),
    ensures
        query_shape(sql) == statements_shape(prints),
{
    reveal_strlit("?");
    assert("?"@ =~= seq!['?']);
    let scrubbed = marked_statements(parse_result(sql)->Ok_0, "?"@);
    assert(prints =~= scrubbed.map_values(|s: ast::Statement| printed_statement(s)));
}

/// The shape of one statement is the whole of it as it is printed once
/// scrubbed.
pub proof fn law_one_statement_is_its_shape(sql: Seq<char>)
    requires
        has_shape(sql),
        marked_statements(parse_result(sql)->Ok_0, seq!['?']).len() == 1,
    ensures
        query_shape(sql) == printed_statement(
            marked_statements(parse_result(sql)->Ok_0, seq!['?'])[0],
        ),
{
    let scrubbed = marked_statements(parse_result(sql)->Ok_0, seq!['?']);
    let prints = seq![printed_statement(scrubbed[0])];
    law_shapes_are_of_scrubbed_statements(sql, prints);
    law_shapes_keep_every_statement(prints, prints[0]);
}

/// Two texts of one statement each have the same shape exactly if their
/// scrubbed statements print alike: however far in they differ, they are told
/// apart.
pub proof fn law_shapes_tell_statements_apart(a: Seq<char>, b: Seq<char>)
    requires
        has_shape(a),
        has_shape(b),
        marked_statements(parse_result(a)->Ok_0, seq!['?']).len() == 1,
        marked_statements(parse_result(b)->Ok_0, seq!['?']).len() == 1,
    ensures
        query_shape(a) == query_shape(b) <==> printed_statement(
            marked_statements(parse_result(a)->Ok_0, seq!['?'])[0],
        ) == printed_statement(marked_statements(parse_result(b)->Ok_0, seq!['?'])[0]),
{
    law_one_statement_is_its_shape(a);
    law_one_statement_is_its_shape(b);
}

/// A text without a shape of statements is collapsed, not dropped.
pub proof fn law_other_texts_are_collapsed(sql: Seq<char>)
    requires
        !has_shape(sql),
    ensures
        query_shape(sql) == collapsed(sql),
{
}

/// White space is the characters with these code points and no other.
pub proof fn law_white_space(c: char)
    ensures
        is_white(c) <==> {
            let code = c as int;
            ||| code == 9 || code == 10 || code == 11 || code == 12 || code == 13
            ||| code == 32 || code == 0x85 || code == 0xa0 || code == 0x1680
            ||| 0x2000 <= code <= 0x200a
            ||| code == 0x2028 || code == 0x2029 || code == 0x202f
            ||| code == 0x205f || code == 0x3000
        },
{
}

/// A text without white space is one word; an empty one has none; white space
/// parts the words before it from those after it.
pub proof fn law_words_are_parted_by_white_space(a: Seq<char>, gap: char, b: Seq<char>)
    requires
        is_white(gap),
    ensures
        words(Seq::empty()) == Seq::<Seq<char>>::empty(),
        a.len() > 0 && (forall|i: int| 0 <= i < a.len() ==> !is_white(#[trigger] a[i])) ==> words(a)
            == seq![a],
        words(a + seq![gap] + b) == words(a) + words(b),
    decreases b.len(),
{
    if a.len() > 0 && (forall|i: int| 0 <= i < a.len() ==> !is_white(#[trigger] a[i])) {
        lemma_words_append(Seq::empty(), a);
        assert(Seq::<char>::empty() + a =~= a);
        assert(words(a) =~= seq![a]);
    }
    let whole = a + seq![gap] + b;
    if b.len() == 0 {
        assert(whole =~= a.push(gap));
        assert(whole.drop_last() =~= a);
        assert(words(a) + words(b) =~= words(a));
    } else {
        law_words_are_parted_by_white_space(a, gap, b.drop_last());
        assert(whole.drop_last() =~= a + seq![gap] + b.drop_last());
        let left = words(a);
        let right = words(b.drop_last());
        assert(words(whole.drop_last()) == left + right);
        if is_white(b.last()) {
        } else if b.len() > 1 && !is_white(b[b.len() - 2]) {
            lemma_words_are_words(b.drop_last());
            assert(in_word(b.drop_last()));
            assert(whole[whole.len() - 2] == b[b.len() - 2]);
            assert((left + right).drop_last().push((left + right).last().push(b.last())) =~= left
                + right.drop_last().push(right.last().push(b.last())));
        } else {
            if b.len() == 1 {
                assert(whole[whole.len() - 2] == gap);
            } else {
                assert(whole[whole.len() - 2] == b[b.len() - 2]);
            }
            assert((left + right).push(seq![b.last()]) =~= left + right.push(seq![b.last()]));
        }
    }
}

/// A word stays as it is, however long. White space before, after or between
/// is one space between words and nothing else.
pub proof fn law_collapsing(a: Seq<char>, gap: char, b: Seq<char>)
    requires
        is_white(gap),
    ensures
        collapsed(Seq::empty()) == Seq::<char>::empty(),
        is_word(a) ==> collapsed(a) == a,
        words(a).len() == 0 ==> collapsed(a + seq![gap] + b) == collapsed(b),
        words(b).len() == 0 ==> collapsed(a + seq![gap] + b) == collapsed(a),
        words(a).len() > 0 && words(b).len() > 0 ==> collapsed(a + seq![gap] + b) == collapsed(a)
            + seq![' '] + collapsed(b),
{
    law_words_are_parted_by_white_space(a, gap, b);
    reveal_strlit(" ");
    assert(" "@ =~= seq![' ']);
    if is_word(a) {
        assert(words(a) == seq![a]);
    }
    if words(a).len() == 0 {
        assert(words(a) + words(b) =~= words(b));
    }
    if words(b).len() == 0 {
        assert(words(a) + words(b) =~= words(a));
    }
    if words(a).len() > 0 && words(b).len() > 0 {
        law_joining_concatenates(words(a), words(b), " "@);
    }
}

/// What becomes of each kind of expression when it is scrubbed.
pub proof fn law_scrubbing(
    boolean: Option<bool>,
    held: bool,
    text: Seq<char>,
    kept: Seq<char>,
    mark: Seq<char>,
    other: ConditionModel,
)
    requires
        other is Nested || other is Binary || other is Other,
    ensures
        marked((ConditionModel::Value { boolean, placeholder: held, text }), mark) == (
        ConditionModel::Value { boolean: None, placeholder: true, text: mark }),
        marked(
            (ConditionModel::Introduced { introducer: kept, placeholder: held, text }),
            mark,
        ) == (ConditionModel::Introduced { introducer: kept, placeholder: true, text: mark }),
        marked((ConditionModel::Typed { data_type: kept, value: text }), mark) == (
        ConditionModel::Typed { data_type: kept, value: mark }),
        marked(other, mark) == other,
        is_literal((ConditionModel::Value { boolean, placeholder: held, text })),
        is_literal((ConditionModel::Introduced { introducer: kept, placeholder: held, text })),
        is_literal((ConditionModel::Typed { data_type: kept, value: text })),
        !is_literal(other),
{
}

/// No value is left exactly if every literal holds the mark and nothing of its
/// own.
pub proof fn law_nothing_is_left_but_the_mark(statements: Seq<ast::Statement>, mark: Seq<char>)
    ensures
        no_value_left(statements, mark) <==> forall|i: int|
            0 <= i < expressions_of(statements).len() ==> match condition_model(
                #[trigger] expressions_of(statements)[i],
            ) {
                ConditionModel::Value { boolean, placeholder, text } => boolean is None
                    && placeholder && text == mark,
                ConditionModel::Introduced { placeholder, text, .. } => placeholder && text == mark,
                ConditionModel::Typed { value, .. } => value == mark,
                _ => true,
            },
{
    assert forall|i: int| 0 <= i < expressions_of(statements).len() implies literal_is_marked(
        condition_model(#[trigger] expressions_of(statements)[i]),
        mark,
    ) == match condition_model(expressions_of(statements)[i]) {
        ConditionModel::Value { boolean, placeholder, text } => boolean is None && placeholder
            && text == mark,
        ConditionModel::Introduced { placeholder, text, .. } => placeholder && text == mark,
        ConditionModel::Typed { value, .. } => value == mark,
        _ => true,
    } by {}
}

/// A hexadecimal digit is one of sixteen characters.
pub proof fn law_hexadecimal_digits(c: char)
    ensures
        is_hex(c) <==> c == '0' || c == '1' || c == '2' || c == '3' || c == '4' || c == '5' || c
            == '6' || c == '7' || c == '8' || c == '9' || c == 'a' || c == 'b' || c == 'c' || c
            == 'd' || c == 'e' || c == 'f',
{
}

} // verus!
