//! Laws on the token gate: which tokens make it refuse a text, wherever they
//! stand, and that nothing else does.

use vstd::prelude::*;

use crate::policy::PolicyModel;
use crate::text::lower;
use crate::tokens::{
    begins_with_one, blocked_refusal, escape_at, first_blocked, has_escape, has_unicode_string,
    identifier_of, meaningful, token_refusal,
};
use crate::tree::TokenModel;

verus! {

/// The token is an identifier, bare or in double quotes, that says `name`.
pub open spec fn says(token: TokenModel, name: Seq<char>) -> bool {
    ||| token == TokenModel::Word { value: name, quoted: false }
    ||| token == TokenModel::Word { value: name, quoted: true }
    ||| token == TokenModel::DoubleQuotedString(name)
}

/// The `k`-th token is the next after the `i`-th, white space aside.
pub open spec fn comes_next(tokens: Seq<TokenModel>, i: int, k: int) -> bool {
    &&& i < k < tokens.len()
    &&& tokens[k] != TokenModel::Whitespace
    &&& forall|m: int| i < m < k ==> #[trigger] tokens[m] == TokenModel::Whitespace
}

/// The `i`-th token says `name`, and the policy refuses that name there: listed
/// anywhere, of a listed family, listed bare and without quotes, or listed
/// before a period or a parenthesis and with that next.
pub open spec fn offends(p: PolicyModel, tokens: Seq<TokenModel>, i: int, name: Seq<char>) -> bool {
    &&& 0 <= i < tokens.len()
    &&& says(tokens[i], name)
    &&& {
        ||| exists|j: int|
            0 <= j < p.blocked_identifiers.len() && #[trigger] p.blocked_identifiers[j] == lower(
                name,
            )
        ||| exists|j: int|
            0 <= j < p.blocked_identifier_prefixes.len() && {
                let family = #[trigger] p.blocked_identifier_prefixes[j];
                family.len() <= name.len() && lower(name).take(family.len() as int) == family
            }
        ||| tokens[i] == (TokenModel::Word { value: name, quoted: false }) && exists|j: int|
            0 <= j < p.blocked_bare_identifiers.len() && #[trigger] p.blocked_bare_identifiers[j]
                == lower(name)
        ||| exists|k: int, j: int|
            #![trigger tokens[k], p.blocked_schema_qualifiers[j]]
            comes_next(tokens, i, k) && tokens[k] == TokenModel::Period && 0 <= j
                < p.blocked_schema_qualifiers.len() && p.blocked_schema_qualifiers[j] == lower(name)
        ||| exists|k: int, j: int|
            #![trigger tokens[k], p.blocked_function_identifiers[j]]
            comes_next(tokens, i, k) && tokens[k] == TokenModel::LParen && 0 <= j
                < p.blocked_function_identifiers.len() && p.blocked_function_identifiers[j]
                == lower(name)
    }
}

/// At `i` stands a Unicode-escaped text: a token of its own, or a bare `u` or `U`
/// glued to an ampersand that is glued to something in quotes.
pub open spec fn escapes(tokens: Seq<TokenModel>, i: int) -> bool {
    &&& 0 <= i < tokens.len()
    &&& {
        ||| tokens[i] == TokenModel::UnicodeString
        ||| {
            &&& i + 2 < tokens.len()
            &&& tokens[i] == (TokenModel::Word { value: seq!['u'], quoted: false }) || tokens[i] == (
            TokenModel::Word { value: seq!['U'], quoted: false })
            &&& tokens[i + 1] == TokenModel::Ampersand
            &&& tokens[i + 2] == TokenModel::SingleQuotedString || tokens[i
                + 2] is DoubleQuotedString || (tokens[i + 2] matches TokenModel::Word { quoted, .. }
                && quoted)
        }
    }
}

/// The tokens that are not white space, from the front.
proof fn lemma_meaningful_front(tokens: Seq<TokenModel>)
    requires
        tokens.len() > 0,
    ensures
        tokens[0] == TokenModel::Whitespace ==> meaningful(tokens) == meaningful(tokens.skip(1)),
        tokens[0] != TokenModel::Whitespace ==> meaningful(tokens) == seq![tokens[0]] + meaningful(
            tokens.skip(1),
        ),
{
    reveal(Seq::filter);
    let kept = |t: TokenModel| !(t is Whitespace);
    let one = seq![tokens[0]];
    assert(tokens =~= one + tokens.skip(1));
    Seq::filter_distributes_over_add(one, tokens.skip(1), kept);
    assert(one.drop_last() =~= Seq::empty());
    assert(one.last() == tokens[0]);
    assert(one.drop_last().filter(kept) =~= Seq::empty());
    if tokens[0] is Whitespace {
        assert(one.filter(kept) =~= Seq::empty());
        assert(meaningful(tokens) =~= meaningful(tokens.skip(1)));
    } else {
        assert(one.filter(kept) =~= one);
    }
}

/// The first token that is not white space.
proof fn lemma_meaningful_first(tokens: Seq<TokenModel>, from: int)
    requires
        -1 <= from < tokens.len(),
    ensures
        forall|k: int| #[trigger]
            comes_next(tokens, from, k) ==> meaningful(tokens.skip(from + 1)).len() > 0
                && meaningful(tokens.skip(from + 1))[0] == tokens[k],
        meaningful(tokens.skip(from + 1)).len() > 0 ==> exists|k: int| #[trigger]
            comes_next(tokens, from, k) && meaningful(tokens.skip(from + 1))[0] == tokens[k],
    decreases tokens.len() - from,
{
    let rest = tokens.skip(from + 1);
    if rest.len() == 0 {
        reveal(Seq::filter);
        assert(meaningful(rest).len() == 0);
    } else {
        lemma_meaningful_front(rest);
        assert(rest[0] == tokens[from + 1]);
        if rest[0] == TokenModel::Whitespace {
            lemma_meaningful_first(tokens, from + 1);
            assert(rest.skip(1) =~= tokens.skip(from + 2));
            assert forall|k: int| #[trigger] comes_next(tokens, from, k) implies meaningful(
                rest,
            ).len() > 0 && meaningful(rest)[0] == tokens[k] by {
                assert(k != from + 1);
                assert(comes_next(tokens, from + 1, k));
            }
            if meaningful(rest).len() > 0 {
                let k = choose|k: int| #[trigger]
                    comes_next(tokens, from + 1, k) && meaningful(tokens.skip(from + 2))[0]
                        == tokens[k];
                assert(comes_next(tokens, from, k));
            }
        } else {
            assert(comes_next(tokens, from, from + 1));
            assert forall|k: int| #[trigger] comes_next(tokens, from, k) implies k == from + 1 by {
                if k > from + 1 {
                    assert(tokens[from + 1] == TokenModel::Whitespace);
                }
            }
        }
    }
}

/// A token offends exactly if the block lists refuse the tokens from it on.
proof fn lemma_offends(p: PolicyModel, tokens: Seq<TokenModel>, i: int, name: Seq<char>)
    requires
        0 <= i < tokens.len(),
        says(tokens[i], name),
    ensures
        offends(p, tokens, i, name) <==> first_blocked(p, meaningful(tokens.skip(i))),
        identifier_of(tokens[i]) == Some(name),
{
    let here = meaningful(tokens.skip(i));
    let rest = meaningful(tokens.skip(i + 1));
    lemma_meaningful_front(tokens.skip(i));
    assert(tokens.skip(i).skip(1) =~= tokens.skip(i + 1));
    lemma_meaningful_first(tokens, i);
    assert(here[0] == tokens[i]);
    assert(here.len() == rest.len() + 1);
    if rest.len() > 0 {
        assert(here[1] == rest[0]);
    }
    let folded = lower(name);
    assert(p.blocked_identifiers.contains(folded) <==> exists|j: int|
        0 <= j < p.blocked_identifiers.len() && #[trigger] p.blocked_identifiers[j] == folded);
    assert(begins_with_one(folded, p.blocked_identifier_prefixes) <==> exists|j: int|
        0 <= j < p.blocked_identifier_prefixes.len() && {
            let family = #[trigger] p.blocked_identifier_prefixes[j];
            family.len() <= name.len() && folded.take(family.len() as int) == family
        }) by {
        assert forall|j: int| 0 <= j < p.blocked_identifier_prefixes.len() implies (
        #[trigger] p.blocked_identifier_prefixes[j]).is_prefix_of(folded) == ({
            let family = p.blocked_identifier_prefixes[j];
            family.len() <= name.len() && folded.take(family.len() as int) == family
        }) by {
            let family = p.blocked_identifier_prefixes[j];
            if family.len() <= name.len() {
                assert(folded.take(family.len() as int) =~= folded.subrange(
                    0,
                    family.len() as int,
                ));
            }
        }
    }
    if offends(p, tokens, i, name) && !first_blocked(p, here) {
        if exists|k: int, j: int|
            #![trigger tokens[k], p.blocked_schema_qualifiers[j]]
            comes_next(tokens, i, k) && tokens[k] == TokenModel::Period && 0 <= j
                < p.blocked_schema_qualifiers.len() && p.blocked_schema_qualifiers[j] == folded {
            let (k, j) = choose|k: int, j: int|
                #![trigger tokens[k], p.blocked_schema_qualifiers[j]]
                comes_next(tokens, i, k) && tokens[k] == TokenModel::Period && 0 <= j
                    < p.blocked_schema_qualifiers.len() && p.blocked_schema_qualifiers[j] == folded;
            assert(rest[0] == tokens[k]);
            assert(p.blocked_schema_qualifiers.contains(folded));
        } else if exists|k: int, j: int|
            #![trigger tokens[k], p.blocked_function_identifiers[j]]
            comes_next(tokens, i, k) && tokens[k] == TokenModel::LParen && 0 <= j
                < p.blocked_function_identifiers.len() && p.blocked_function_identifiers[j]
                == folded {
            let (k, j) = choose|k: int, j: int|
                #![trigger tokens[k], p.blocked_function_identifiers[j]]
                comes_next(tokens, i, k) && tokens[k] == TokenModel::LParen && 0 <= j
                    < p.blocked_function_identifiers.len() && p.blocked_function_identifiers[j]
                    == folded;
            assert(rest[0] == tokens[k]);
            assert(p.blocked_function_identifiers.contains(folded));
        } else if tokens[i] == (TokenModel::Word { value: name, quoted: false }) && exists|j: int|
            0 <= j < p.blocked_bare_identifiers.len() && #[trigger] p.blocked_bare_identifiers[j]
                == folded {
            assert(p.blocked_bare_identifiers.contains(folded));
        }
        assert(false);
    }
    if first_blocked(p, here) && !offends(p, tokens, i, name) {
        if rest.len() > 0 {
            let k = choose|k: int| #[trigger]
                comes_next(tokens, i, k) && rest[0] == tokens[k];
            if p.blocked_schema_qualifiers.contains(folded) && rest[0] is Period {
                let j = choose|j: int|
                    0 <= j < p.blocked_schema_qualifiers.len() && p.blocked_schema_qualifiers[j]
                        == folded;
                assert(tokens[k] == TokenModel::Period && p.blocked_schema_qualifiers[j] == folded);
            }
            if p.blocked_function_identifiers.contains(folded) && rest[0] is LParen {
                let j = choose|j: int|
                    0 <= j < p.blocked_function_identifiers.len()
                        && p.blocked_function_identifiers[j] == folded;
                assert(tokens[k] == TokenModel::LParen && p.blocked_function_identifiers[j]
                    == folded);
            }
        }
        if p.blocked_bare_identifiers.contains(folded) {
            let j = choose|j: int|
                0 <= j < p.blocked_bare_identifiers.len() && p.blocked_bare_identifiers[j]
                    == folded;
            assert(p.blocked_bare_identifiers[j] == folded);
        }
        assert(false);
    }
}

/// The block lists refuse the tokens from the `from`-th on for the first that
/// offends.
proof fn lemma_blocked_from(p: PolicyModel, tokens: Seq<TokenModel>, from: int)
    requires
        0 <= from <= tokens.len(),
    ensures
        blocked_refusal(p, meaningful(tokens.skip(from))) is None ==> forall|i: int, name: Seq<char>|
            from <= i ==> !#[trigger] offends(p, tokens, i, name),
        blocked_refusal(p, meaningful(tokens.skip(from))) matches Some(reason) ==> exists|
            i: int,
            name: Seq<char>,
        |
            from <= i && #[trigger] offends(p, tokens, i, name) && reason
                == "Postgres introspection blocked. `"@ + name
                + "` is not available on this SQL surface."@ && forall|k: int, other: Seq<char>|
                from <= k < i ==> !#[trigger] offends(p, tokens, k, other),
    decreases tokens.len() - from,
{
    let here = meaningful(tokens.skip(from));
    if from == tokens.len() {
        reveal(Seq::filter);
        assert(here.len() == 0);
    } else {
        lemma_meaningful_front(tokens.skip(from));
        assert(tokens.skip(from).skip(1) =~= tokens.skip(from + 1));
        lemma_blocked_from(p, tokens, from + 1);
        let rest = meaningful(tokens.skip(from + 1));
        if tokens[from] == TokenModel::Whitespace {
            assert forall|name: Seq<char>| !#[trigger] offends(p, tokens, from, name) by {}
        } else {
            assert(here.skip(1) =~= rest);
            assert(here[0] == tokens[from]);
            if let Some(name) = identifier_of(tokens[from]) {
                assert(says(tokens[from], name));
                lemma_offends(p, tokens, from, name);
                assert forall|other: Seq<char>| #[trigger]
                    offends(p, tokens, from, other) implies other == name by {}
                if first_blocked(p, here) {
                    assert(offends(p, tokens, from, name));
                }
            } else {
                assert(!first_blocked(p, here));
                assert forall|name: Seq<char>| !#[trigger] offends(p, tokens, from, name) by {}
            }
        }
    }
}

/// Escapes are the tokens that are taken for Unicode-escaped texts.
proof fn lemma_escapes(tokens: Seq<TokenModel>)
    ensures
        has_escape(tokens) <==> exists|i: int| #[trigger] escapes(tokens, i),
{
    reveal_strlit("u");
    assert forall|i: int| #[trigger] escapes(tokens, i) implies has_escape(tokens) by {
        if tokens[i] is UnicodeString {
            assert(has_unicode_string(tokens));
        } else {
            let value = tokens[i]->value;
            assert(lower(value) =~= lower("u"@));
            assert(escape_at(tokens, i));
        }
    }
    if has_unicode_string(tokens) {
        let i = choose|i: int| 0 <= i < tokens.len() && #[trigger] tokens[i] is UnicodeString;
        assert(escapes(tokens, i));
    } else if has_escape(tokens) {
        let i = choose|i: int| #[trigger] escape_at(tokens, i);
        let value = tokens[i]->value;
        assert(lower(value).len() == lower("u"@).len());
        assert(lower(value)[0] == lower("u"@)[0]);
        assert(value =~= seq!['u'] || value =~= seq!['U']);
        assert(escapes(tokens, i));
    }
}

/// A token names what it says, in quotes or not; other tokens name nothing.
pub proof fn law_tokens_name_what_they_say(token: TokenModel, name: Seq<char>)
    ensures
        identifier_of(token) == Some(name) <==> says(token, name),
{
}

/// The token gate passes exactly the texts in which no token escapes and none
/// offends.
pub proof fn law_tokens_pass_exactly_if_none_offends(p: PolicyModel, tokens: Seq<TokenModel>)
    ensures
        token_refusal(p, tokens) is None <==> (forall|i: int| !#[trigger] escapes(tokens, i)) && (
        forall|i: int, name: Seq<char>| !#[trigger] offends(p, tokens, i, name)),
{
    lemma_escapes(tokens);
    lemma_blocked_from(p, tokens, 0);
    assert(tokens.skip(0) =~= tokens);
    if forall|i: int, name: Seq<char>| !#[trigger] offends(p, tokens, i, name) {
        assert(blocked_refusal(p, meaningful(tokens)) is None);
    }
}

/// The refusal names the first token that offends, as it is spelled.
pub proof fn law_the_first_offender_is_named(p: PolicyModel, tokens: Seq<TokenModel>)
    requires
        forall|i: int| !#[trigger] escapes(tokens, i),
    ensures
        token_refusal(p, tokens) matches Some(reason) ==> exists|i: int, name: Seq<char>| #[trigger]
            offends(p, tokens, i, name) && reason == "Postgres introspection blocked. `"@ + name
                + "` is not available on this SQL surface."@ && forall|k: int, other: Seq<char>|
                k < i ==> !#[trigger] offends(p, tokens, k, other),
{
    lemma_escapes(tokens);
    lemma_blocked_from(p, tokens, 0);
    assert(tokens.skip(0) =~= tokens);
    if token_refusal(p, tokens) is Some {
        let (i, name) = choose|i: int, name: Seq<char>|
            0 <= i && #[trigger] offends(p, tokens, i, name) && token_refusal(p, tokens)->0
                == "Postgres introspection blocked. `"@ + name
                + "` is not available on this SQL surface."@ && forall|k: int, other: Seq<char>|
                0 <= k < i ==> !#[trigger] offends(p, tokens, k, other);
        assert forall|k: int, other: Seq<char>| k < i implies !#[trigger] offends(
            p,
            tokens,
            k,
            other,
        ) by {}
    }
}

/// A Unicode-escaped text anywhere is refused for what it is, whatever the policy
/// says.
pub proof fn law_escapes_are_refused(p: PolicyModel, tokens: Seq<TokenModel>, i: int)
    requires
        escapes(tokens, i),
    ensures
        token_refusal(p, tokens) == Some(
            "Unicode-escaped identifiers and strings (U&\"…\") are not allowed on this SQL surface."@,
        ),
{
    lemma_escapes(tokens);
}

/// A listed identifier is refused anywhere it appears: bare or quoted, in any
/// case, and whatever stands before or after it.
pub proof fn law_listed_identifiers_are_refused_anywhere(
    p: PolicyModel,
    before: Seq<TokenModel>,
    token: TokenModel,
    after: Seq<TokenModel>,
    name: Seq<char>,
)
    requires
        says(token, name),
        p.blocked_identifiers.contains(lower(name)),
    ensures
        token_refusal(p, before + seq![token] + after) is Some,
{
    let tokens = before + seq![token] + after;
    let i = before.len() as int;
    assert(tokens[i] == token);
    assert(offends(p, tokens, i, name));
    law_tokens_pass_exactly_if_none_offends(p, tokens);
}

/// An identifier of a listed family is refused anywhere it appears.
pub proof fn law_listed_families_are_refused_anywhere(
    p: PolicyModel,
    before: Seq<TokenModel>,
    token: TokenModel,
    after: Seq<TokenModel>,
    family: Seq<char>,
    name: Seq<char>,
)
    requires
        says(token, name),
        p.blocked_identifier_prefixes.contains(family),
        family.is_prefix_of(lower(name)),
    ensures
        token_refusal(p, before + seq![token] + after) is Some,
{
    let tokens = before + seq![token] + after;
    let i = before.len() as int;
    assert(tokens[i] == token);
    let j = choose|j: int|
        0 <= j < p.blocked_identifier_prefixes.len() && p.blocked_identifier_prefixes[j] == family;
    assert(lower(name).take(family.len() as int) =~= family);
    assert(p.blocked_identifier_prefixes[j] == family);
    assert(offends(p, tokens, i, name));
    law_tokens_pass_exactly_if_none_offends(p, tokens);
}

/// What is listed before a period, or before a parenthesis, is refused exactly
/// there: with white space between or without.
pub proof fn law_listed_before_a_sign_is_refused_there(
    p: PolicyModel,
    before: Seq<TokenModel>,
    token: TokenModel,
    spaces: Seq<TokenModel>,
    sign: TokenModel,
    after: Seq<TokenModel>,
    name: Seq<char>,
)
    requires
        says(token, name),
        forall|m: int| 0 <= m < spaces.len() ==> #[trigger] spaces[m] == TokenModel::Whitespace,
        (sign == TokenModel::Period && p.blocked_schema_qualifiers.contains(lower(name))) || (sign
            == TokenModel::LParen && p.blocked_function_identifiers.contains(lower(name))),
    ensures
        token_refusal(p, before + seq![token] + spaces + seq![sign] + after) is Some,
{
    let tokens = before + seq![token] + spaces + seq![sign] + after;
    let i = before.len() as int;
    let k = i + 1 + spaces.len();
    assert(tokens[i] == token);
    assert(tokens[k] == sign);
    assert forall|m: int| i < m < k implies #[trigger] tokens[m] == TokenModel::Whitespace by {
        assert(tokens[m] == spaces[m - i - 1]);
    }
    assert(comes_next(tokens, i, k));
    if sign == TokenModel::Period {
        let j = choose|j: int|
            0 <= j < p.blocked_schema_qualifiers.len() && p.blocked_schema_qualifiers[j] == lower(
                name,
            );
        assert(tokens[k] == TokenModel::Period && p.blocked_schema_qualifiers[j] == lower(name));
    } else {
        let j = choose|j: int|
            0 <= j < p.blocked_function_identifiers.len() && p.blocked_function_identifiers[j]
                == lower(name);
        assert(tokens[k] == TokenModel::LParen && p.blocked_function_identifiers[j] == lower(name));
    }
    assert(offends(p, tokens, i, name));
    law_tokens_pass_exactly_if_none_offends(p, tokens);
}

/// A word that is listed bare is refused without quotes anywhere.
pub proof fn law_listed_bare_words_are_refused(
    p: PolicyModel,
    before: Seq<TokenModel>,
    after: Seq<TokenModel>,
    name: Seq<char>,
)
    requires
        p.blocked_bare_identifiers.contains(lower(name)),
    ensures
        token_refusal(
            p,
            before + seq![TokenModel::Word { value: name, quoted: false }] + after,
        ) is Some,
{
    let token = TokenModel::Word { value: name, quoted: false };
    let tokens = before + seq![token] + after;
    let i = before.len() as int;
    assert(tokens[i] == token);
    let j = choose|j: int|
        0 <= j < p.blocked_bare_identifiers.len() && p.blocked_bare_identifiers[j] == lower(name);
    assert(p.blocked_bare_identifiers[j] == lower(name));
    assert(offends(p, tokens, i, name));
    law_tokens_pass_exactly_if_none_offends(p, tokens);
}

} // verus!
