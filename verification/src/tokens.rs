//! The token gate: an independent screen below the statement tree.
//!
//! PostgreSQL double quotes are delimited identifiers, not string literals, so
//! `"pg_catalog"."pg_class"` and `"pg_sleep"()` are screened exactly like their
//! bare forms. Only what is blocked as a bare word alone may stand in quotes.

use vstd::prelude::*;

use crate::policy::{Policy, PolicyModel};
use crate::refusal::{identifier_blocked, introspection_blocked, refusal};
use crate::text::{eq_ignore_case, has_prefix, list_has, lower, same_ignoring_case, texts, to_lower};
use crate::tree::{token_models, TokenModel, TokenNode};

verus! {

/// What the token names, quoted or not, if it is an identifier.
pub open spec fn identifier_of(token: TokenModel) -> Option<Seq<char>> {
    match token {
        TokenModel::Word { value, .. } => Some(value),
        TokenModel::DoubleQuotedString(value) => Some(value),
        _ => None,
    }
}

/// The token stands in quotes.
pub open spec fn is_quoted(token: TokenModel) -> bool {
    match token {
        TokenModel::Word { quoted, .. } => quoted,
        TokenModel::SingleQuotedString | TokenModel::DoubleQuotedString(_) => true,
        _ => false,
    }
}

/// At `i` stands a bare `u`, glued to `&`, glued to something in quotes.
pub open spec fn escape_at(tokens: Seq<TokenModel>, i: int) -> bool {
    &&& 0 <= i
    &&& i + 2 < tokens.len()
    &&& tokens[i] matches TokenModel::Word { value, quoted }
    &&& !quoted
    &&& same_ignoring_case(value, "u"@)
    &&& tokens[i + 1] is Ampersand
    &&& is_quoted(tokens[i + 2])
}

/// A Unicode-escaped string stands among the tokens.
pub open spec fn has_unicode_string(tokens: Seq<TokenModel>) -> bool {
    exists|i: int| 0 <= i < tokens.len() && #[trigger] tokens[i] is UnicodeString
}

/// A Unicode-escaped identifier or string stands among the tokens: as a token
/// of its own, or as an introducer glued to something in quotes.
pub open spec fn has_escape(tokens: Seq<TokenModel>) -> bool {
    has_unicode_string(tokens) || exists|i: int| #[trigger] escape_at(tokens, i)
}

/// The token is a word without quotes.
pub open spec fn is_bare_word(token: TokenModel) -> bool {
    token matches TokenModel::Word { quoted, .. } && !quoted
}

/// The tokens that are not white space.
pub open spec fn meaningful(tokens: Seq<TokenModel>) -> Seq<TokenModel> {
    tokens.filter(|t: TokenModel| !(t is Whitespace))
}

/// At `i` stands the keyword, in any case and without quotes.
pub open spec fn keyword_at(tokens: Seq<TokenModel>, i: int, keyword: Seq<char>) -> bool {
    &&& 0 <= i < tokens.len()
    &&& tokens[i] matches TokenModel::Word { value, quoted }
    &&& !quoted
    &&& same_ignoring_case(value, keyword)
}

/// The token can name a role: a word or a text in quotes.
pub open spec fn can_name(token: TokenModel) -> bool {
    token is Word || token is SingleQuotedString || token is DoubleQuotedString
}

/// The first token from the `i`-th on that is not white space.
pub open spec fn next_at(tokens: Seq<TokenModel>, i: int) -> int
    decreases tokens.len() - i,
{
    if i >= tokens.len() {
        tokens.len() as int
    } else if tokens[i] is Whitespace {
        next_at(tokens, i + 1)
    } else {
        i
    }
}

/// At `j` stands GRANTED BY with no name after it.
pub open spec fn nameless_at(tokens: Seq<TokenModel>, j: int) -> bool {
    let by = next_at(tokens, j + 1);
    let name = next_at(tokens, by + 1);
    &&& keyword_at(tokens, j, "GRANTED"@)
    &&& keyword_at(tokens, by, "BY"@)
    &&& !(name < tokens.len() && can_name(tokens[name]))
}

/// Somewhere stands GRANTED BY with no name after it.
pub open spec fn has_nameless(tokens: Seq<TokenModel>) -> bool {
    exists|j: int| #[trigger] nameless_at(tokens, j)
}

/// One of the prefixes begins the text.
pub open spec fn begins_with_one(text: Seq<char>, prefixes: Seq<Seq<char>>) -> bool {
    exists|i: int| 0 <= i < prefixes.len() && (#[trigger] prefixes[i]).is_prefix_of(text)
}

/// The first of the tokens is an identifier that the policy blocks where it
/// stands.
pub open spec fn first_blocked(p: PolicyModel, tokens: Seq<TokenModel>) -> bool {
    &&& tokens.len() > 0
    &&& identifier_of(tokens[0]) matches Some(identifier)
    &&& {
        let ident = lower(identifier);
        ||| p.blocked_schema_qualifiers.contains(ident) && tokens.len() > 1 && tokens[1] is Period
        ||| p.blocked_identifiers.contains(ident)
        ||| p.blocked_function_identifiers.contains(ident) && tokens.len() > 1
            && tokens[1] is LParen
        ||| p.blocked_bare_identifiers.contains(ident) && is_bare_word(tokens[0])
        ||| begins_with_one(ident, p.blocked_identifier_prefixes)
    }
}

/// The refusal of the first token that the policy blocks where it stands.
pub open spec fn blocked_refusal(p: PolicyModel, tokens: Seq<TokenModel>) -> Option<Seq<char>>
    decreases tokens.len(),
{
    if tokens.len() == 0 {
        None
    } else if first_blocked(p, tokens) {
        Some(identifier_blocked(identifier_of(tokens[0])->0))
    } else {
        blocked_refusal(p, tokens.skip(1))
    }
}

/// Why the tokens of a statement are refused.
pub open spec fn token_refusal(p: PolicyModel, tokens: Seq<TokenModel>) -> Option<Seq<char>> {
    if has_escape(tokens) {
        Some(
            "Unicode-escaped identifiers and strings (U&\"…\") are not allowed on this SQL surface."@,
        )
    } else {
        blocked_refusal(p, meaningful(tokens))
    }
}

/// What the token names, quoted or not, if it is an identifier.
pub fn contract_identifier_token<'a>(token: &'a TokenNode) -> (r: Option<&'a str>)
    ensures
        (match r {
            Some(s) => Some(s@),
            None => None,
        }) == identifier_of(token.model()),
{
    match token {
        TokenNode::Word { value, .. } => Some(value.as_str()),
        // PostgreSQL double quotes are delimited identifiers, not string literals.
        // Treat them exactly like bare words so `"pg_catalog"."pg_class"` and
        // `"pg_sleep"()` cannot bypass the surface contract.
        TokenNode::DoubleQuotedString(value) => Some(value.as_str()),
        _ => None,
    }
}

/// Whether a Unicode-escaped identifier or string stands among the tokens.
fn contains_escape(tokens: &Vec<TokenNode>) -> (r: bool)
    ensures
        r == has_escape(token_models(tokens@)),
{
    let ghost all = token_models(tokens@);
    let mut k: usize = 0;
    while k < tokens.len()
        invariant
            k <= tokens.len(),
            all == token_models(tokens@),
            forall|j: int| 0 <= j < k ==> !(#[trigger] all[j] is UnicodeString),
        decreases tokens.len() - k,
    {
        assert(all[k as int] == tokens@[k as int].model());
        if let TokenNode::UnicodeString = &tokens[k] {
            assert(all[k as int] is UnicodeString);
            return true;
        }
        k += 1;
    }
    if tokens.len() < 3 {
        return false;
    }
    let last: usize = tokens.len() - 2;
    let mut i: usize = 0;
    while i < last
        invariant
            i <= last,
            last + 2 == tokens.len(),
            all == token_models(tokens@),
            !has_unicode_string(all),
            forall|j: int| 0 <= j < i ==> !(#[trigger] escape_at(all, j)),
        decreases last - i,
    {
        assert(all[i as int] == tokens@[i as int].model());
        assert(all[i + 1] == tokens@[i + 1].model());
        assert(all[i + 2] == tokens@[i + 2].model());
        let introduced = match &tokens[i] {
            TokenNode::Word { value, quoted } => !*quoted && eq_ignore_case(value.as_str(), "u"),
            _ => false,
        };
        let glued = match &tokens[i + 1] {
            TokenNode::Ampersand => true,
            _ => false,
        };
        let quoted_third = match &tokens[i + 2] {
            TokenNode::Word { quoted, .. } => *quoted,
            TokenNode::SingleQuotedString | TokenNode::DoubleQuotedString(_) => true,
            _ => false,
        };
        assert(escape_at(all, i as int) == (introduced && glued && quoted_third));
        if introduced && glued && quoted_third {
            return true;
        }
        i += 1;
    }
    false
}

/// The models of borrowed tokens.
pub open spec fn borrowed_tokens(tokens: Seq<&TokenNode>) -> Seq<TokenModel> {
    tokens.map_values(|t: &TokenNode| t.model())
}

/// The tokens that are not white space.
fn without_whitespace<'a>(tokens: &'a Vec<TokenNode>) -> (r: Vec<&'a TokenNode>)
    ensures
        borrowed_tokens(r@) == meaningful(token_models(tokens@)),
{
    let ghost all = token_models(tokens@);
    let mut out: Vec<&'a TokenNode> = Vec::new();
    let mut i: usize = 0;
    proof {
        reveal(Seq::filter);
    }
    while i < tokens.len()
        invariant
            i <= tokens.len(),
            all == token_models(tokens@),
            borrowed_tokens(out@) =~= meaningful(all.take(i as int)),
        decreases tokens.len() - i,
    {
        proof {
            reveal(Seq::filter);
        }
        assert(all.take(i + 1).drop_last() =~= all.take(i as int));
        assert(all.take(i + 1).last() == tokens@[i as int].model());
        let ghost before = out@;
        let keep = match &tokens[i] {
            TokenNode::Whitespace => false,
            _ => true,
        };
        if keep {
            out.push(&tokens[i]);
            assert(borrowed_tokens(out@) =~= borrowed_tokens(before).push(
                tokens@[i as int].model(),
            ));
        }
        i += 1;
    }
    assert(all.take(tokens.len() as int) =~= all);
    out
}

/// Whether the token is the keyword, in any case and without quotes.
fn is_keyword(token: &TokenNode, keyword: &str) -> (r: bool)
    ensures
        r == keyword_at(seq![token.model()], 0, keyword@),
{
    match token {
        TokenNode::Word { value, quoted } => !*quoted && eq_ignore_case(value.as_str(), keyword),
        _ => false,
    }
}

/// The first token from the `i`-th on that is not white space.
fn next_index(tokens: &Vec<TokenNode>, i: usize) -> (r: usize)
    ensures
        r == next_at(token_models(tokens@), i as int),
        r <= tokens.len(),
{
    let ghost all = token_models(tokens@);
    let mut k = i;
    while k < tokens.len()
        invariant
            i <= k,
            i <= tokens.len() ==> k <= tokens.len(),
            all == token_models(tokens@),
            next_at(all, k as int) == next_at(all, i as int),
        decreases tokens.len() - k,
    {
        assert(all[k as int] == tokens@[k as int].model());
        match &tokens[k] {
            TokenNode::Whitespace => {
                k += 1;
            },
            _ => {
                return k;
            },
        }
    }
    tokens.len()
}

/// Whether at `j` stands GRANTED BY with no name after it.
pub(crate) fn is_nameless(tokens: &Vec<TokenNode>, j: usize) -> (r: bool)
    requires
        j < tokens.len(),
    ensures
        r == nameless_at(token_models(tokens@), j as int),
{
    let ghost all = token_models(tokens@);
    assert(all[j as int] == tokens@[j as int].model());
    if !is_keyword(&tokens[j], "GRANTED") {
        return false;
    }
    let by = next_index(tokens, j + 1);
    if by >= tokens.len() {
        return false;
    }
    assert(all[by as int] == tokens@[by as int].model());
    if !is_keyword(&tokens[by], "BY") {
        return false;
    }
    let name = next_index(tokens, by + 1);
    if name >= tokens.len() {
        return true;
    }
    assert(all[name as int] == tokens@[name as int].model());
    match &tokens[name] {
        TokenNode::Word { .. } => false,
        TokenNode::SingleQuotedString | TokenNode::DoubleQuotedString(_) => false,
        _ => true,
    }
}

/// Whether somewhere stands GRANTED BY with no name after it.
pub fn has_nameless_grantor(tokens: &Vec<TokenNode>) -> (r: bool)
    ensures
        r == has_nameless(token_models(tokens@)),
{
    let ghost all = token_models(tokens@);
    let mut j: usize = 0;
    while j < tokens.len()
        invariant
            j <= tokens.len(),
            all == token_models(tokens@),
            forall|k: int| k < j ==> !#[trigger] nameless_at(all, k),
        decreases tokens.len() - j,
    {
        if is_nameless(tokens, j) {
            return true;
        }
        j += 1;
    }
    false
}

/// Whether one of the listed prefixes begins the text.
fn has_listed_prefix(list: &Vec<String>, text: &str) -> (r: bool)
    ensures
        r == begins_with_one(text@, texts(list@)),
{
    let mut i: usize = 0;
    while i < list.len()
        invariant
            i <= list.len(),
            forall|j: int| 0 <= j < i ==> !(#[trigger] texts(list@)[j]).is_prefix_of(text@),
        decreases list.len() - i,
    {
        if has_prefix(text, list[i].as_str()) {
            assert(texts(list@)[i as int].is_prefix_of(text@));
            return true;
        }
        i += 1;
    }
    false
}

impl Policy {
    /// Refuses Unicode-escaped identifiers and strings, and every identifier
    /// that the policy blocks where it stands.
    ///
    /// The escaped bytes of `U&"..."` can name a function or catalog object that
    /// never matches a block list: `U&"v\0065rsion"()` reaches the server as
    /// `version()`. The tokenizer keeps `U&'...'` as a token of its own. Else the
    /// introducer is a bare `u`/`U` word glued — no white space
    /// between — to `&` glued to a quoted string, so adjacency is looked for
    /// before white space is dropped; `u & "x"` (spaced) is ordinary
    /// bitwise-and and passes.
    pub fn token_screen(&self, tokens: &Vec<TokenNode>) -> (r: Result<(), String>)
        ensures
            refusal(r) == token_refusal(self@, token_models(tokens@)),
    {
        if contains_escape(tokens) {
            return Err(
                "Unicode-escaped identifiers and strings (U&\"…\") are not allowed on this SQL surface.".to_string(),
            );
        }
        let kept = without_whitespace(tokens);
        let ghost all = borrowed_tokens(kept@);
        let mut idx: usize = 0;
        assert(all.skip(0) =~= all);
        while idx < kept.len()
            invariant
                idx <= kept.len(),
                all == borrowed_tokens(kept@),
                all == meaningful(token_models(tokens@)),
                !has_escape(token_models(tokens@)),
                blocked_refusal(self@, all.skip(idx as int)) == blocked_refusal(self@, all),
            decreases kept.len() - idx,
        {
            let ghost rest = all.skip(idx as int);
            assert(rest[0] == kept@[idx as int].model());
            assert(rest.skip(1) =~= all.skip(idx + 1));
            if let Some(identifier) = contract_identifier_token(kept[idx]) {
                let ident = to_lower(identifier);
                let is_bare = match kept[idx] {
                    TokenNode::Word { quoted, .. } => !*quoted,
                    _ => false,
                };
                let mut next_is_period = false;
                let mut next_is_open_paren = false;
                if idx + 1 < kept.len() {
                    assert(rest[1] == kept@[idx + 1].model());
                    match kept[idx + 1] {
                        TokenNode::Period => {
                            next_is_period = true;
                        },
                        TokenNode::LParen => {
                            next_is_open_paren = true;
                        },
                        _ => {},
                    }
                }
                if list_has(&self.blocked_schema_qualifiers, ident.as_str()) && next_is_period {
                    return Err(introspection_blocked(identifier));
                }
                if list_has(&self.blocked_identifiers, ident.as_str()) || (next_is_open_paren
                    && list_has(&self.blocked_function_identifiers, ident.as_str())) || (
                is_bare && list_has(&self.blocked_bare_identifiers, ident.as_str()))
                    || has_listed_prefix(&self.blocked_identifier_prefixes, ident.as_str()) {
                    return Err(introspection_blocked(identifier));
                }
            }
            idx += 1;
        }
        Ok(())
    }
}

/// The tokens name the same thing, and are screened alike: in quotes or not,
/// as a word or as a double-quoted string, unless the word is one that is
/// blocked only bare.
pub open spec fn names_alike(p: PolicyModel, a: TokenModel, b: TokenModel) -> bool {
    ||| a == b
    ||| {
        &&& identifier_of(a) matches Some(name)
        &&& identifier_of(b) == Some(name)
        &&& is_bare_word(a) == is_bare_word(b) || !p.blocked_bare_identifiers.contains(lower(name))
    }
}

/// Quoting hides nothing: tokens that name the same things, quoted or bare, are
/// refused alike and for the same reason, but for words that are blocked only
/// bare.
pub proof fn law_quoting_hides_nothing(p: PolicyModel, a: Seq<TokenModel>, b: Seq<TokenModel>)
    requires
        a.len() == b.len(),
        forall|i: int| 0 <= i < a.len() ==> names_alike(p, #[trigger] a[i], b[i]),
    ensures
        blocked_refusal(p, a) == blocked_refusal(p, b),
    decreases a.len(),
{
    if a.len() > 0 {
        assert(names_alike(p, a[0], b[0]));
        if a.len() > 1 {
            assert(names_alike(p, a[1], b[1]));
        }
        assert(first_blocked(p, a) == first_blocked(p, b));
        assert forall|i: int| 0 <= i < a.skip(1).len() implies names_alike(
            p,
            #[trigger] a.skip(1)[i],
            b.skip(1)[i],
        ) by {
            assert(names_alike(p, a[i + 1], b[i + 1]));
        }
        law_quoting_hides_nothing(p, a.skip(1), b.skip(1));
    }
}

/// The tokens are the same but for the ASCII case of what they name.
pub open spec fn same_but_case(a: TokenModel, b: TokenModel) -> bool {
    match (a, b) {
        (
            TokenModel::Word { value: v, quoted: x },
            TokenModel::Word { value: w, quoted: y },
        ) => same_ignoring_case(v, w) && x == y,
        (TokenModel::DoubleQuotedString(v), TokenModel::DoubleQuotedString(w)) =>
            same_ignoring_case(v, w),
        _ => a == b,
    }
}

/// Case hides nothing: tokens that differ only in ASCII case are both refused
/// or both pass.
pub proof fn law_case_hides_nothing(p: PolicyModel, a: Seq<TokenModel>, b: Seq<TokenModel>)
    requires
        a.len() == b.len(),
        forall|i: int| 0 <= i < a.len() ==> same_but_case(#[trigger] a[i], b[i]),
    ensures
        blocked_refusal(p, a) is Some <==> blocked_refusal(p, b) is Some,
    decreases a.len(),
{
    if a.len() > 0 {
        assert(same_but_case(a[0], b[0]));
        if a.len() > 1 {
            assert(same_but_case(a[1], b[1]));
        }
        assert(first_blocked(p, a) == first_blocked(p, b));
        assert forall|i: int| 0 <= i < a.skip(1).len() implies same_but_case(
            #[trigger] a.skip(1)[i],
            b.skip(1)[i],
        ) by {
            assert(same_but_case(a[i + 1], b[i + 1]));
        }
        law_case_hides_nothing(p, a.skip(1), b.skip(1));
    }
}

/// White space hides nothing from the block lists: they see the same whether
/// or not white space stands between the tokens.
pub proof fn law_whitespace_hides_nothing(p: PolicyModel, a: Seq<TokenModel>, b: Seq<TokenModel>)
    requires
        meaningful(a) == meaningful(b),
        !has_escape(a),
        !has_escape(b),
    ensures
        token_refusal(p, a) == token_refusal(p, b),
{
}

} // verus!
