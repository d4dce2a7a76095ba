//! Laws on texts: what folding, searching, joining and numbers come to, character
//! by character.

use vstd::prelude::*;

use crate::refusal::{or_else, refusal};
use crate::text::{
    all_digits, decimal, digits_value, holds_text, joined, lower, made_of, number_of,
    same_ignoring_case, stands_at, texts, unsigned_part,
};

verus! {

/// Folding keeps the length and every character but the 26 capital letters of
/// ASCII, each of which becomes the small letter 32 places on.
pub proof fn law_folding_moves_capitals_only(s: Seq<char>)
    ensures
        lower(s).len() == s.len(),
        forall|i: int|
            0 <= i < s.len() ==> (#[trigger] lower(s)[i]) as int == if 65 <= s[i] as int && s[i] as int
                <= 90 {
                s[i] as int + 32
            } else {
                s[i] as int
            },
{
}

/// A folded text is not changed by folding, and folding goes over concatenation.
pub proof fn law_folding_is_stable(a: Seq<char>, b: Seq<char>)
    ensures
        lower(lower(a)) == lower(a),
        lower(a + b) == lower(a) + lower(b),
{
    assert(lower(lower(a)) =~= lower(a));
    assert(lower(a + b) =~= lower(a) + lower(b));
}

/// Two texts are the same but for case exactly if they have one length and at
/// each place the same character, or the same letter of ASCII once large and
/// once small.
pub proof fn law_case_is_all_that_may_differ(a: Seq<char>, b: Seq<char>)
    ensures
        same_ignoring_case(a, b) <==> a.len() == b.len() && forall|i: int|
            0 <= i < a.len() ==> (#[trigger] a[i] == b[i] || (a[i] as int + 32 == b[i] as int && 65
                <= a[i] as int && a[i] as int <= 90) || (b[i] as int + 32 == a[i] as int && 65
                <= b[i] as int && b[i] as int <= 90)),
{
    if same_ignoring_case(a, b) {
        assert(lower(a).len() == lower(b).len());
        assert forall|i: int| 0 <= i < a.len() implies (#[trigger] a[i] == b[i] || (a[i] as int + 32
            == b[i] as int && 65 <= a[i] as int && a[i] as int <= 90) || (b[i] as int + 32
            == a[i] as int && 65 <= b[i] as int && b[i] as int <= 90)) by {
            assert(lower(a)[i] == lower(b)[i]);
        }
    }
    if a.len() == b.len() && forall|i: int|
        0 <= i < a.len() ==> (#[trigger] a[i] == b[i] || (a[i] as int + 32 == b[i] as int && 65
            <= a[i] as int && a[i] as int <= 90) || (b[i] as int + 32 == a[i] as int && 65
            <= b[i] as int && b[i] as int <= 90)) {
        assert forall|i: int| 0 <= i < a.len() implies lower(a)[i] == lower(b)[i] by {
            assert(a[i] == b[i] || a[i] as int + 32 == b[i] as int || b[i] as int + 32
                == a[i] as int);
        }
        assert(lower(a) =~= lower(b));
    }
}

/// A text stands at a place exactly if it is what is left once the characters
/// before the place and those after the text are cut away.
pub proof fn law_what_stands_where(before: Seq<char>, needle: Seq<char>, after: Seq<char>, i: int)
    ensures
        stands_at(before + needle + after, needle, before.len() as int),
        stands_at(before, needle, i) <==> 0 <= i <= before.len() - needle.len() && forall|k: int|
            0 <= k < needle.len() ==> before[i + k] == #[trigger] needle[k],
{
    let whole = before + needle + after;
    let at = before.len() as int;
    assert(whole.subrange(at, at + needle.len()) =~= needle);
    if 0 <= i <= before.len() - needle.len() {
        let part = before.subrange(i, i + needle.len());
        if forall|k: int| 0 <= k < needle.len() ==> before[i + k] == #[trigger] needle[k] {
            assert(part =~= needle);
        }
        if part == needle {
            assert forall|k: int| 0 <= k < needle.len() implies before[i + k]
                == #[trigger] needle[k] by {
                assert(part[k] == before[i + k]);
            }
        }
    }
}

/// A text holds another exactly if it is something, then that other text, then
/// something.
pub proof fn law_held_text_can_be_cut_out(hay: Seq<char>, needle: Seq<char>)
    ensures
        holds_text(hay, needle) <==> exists|before: Seq<char>, after: Seq<char>|
            hay == #[trigger] (before + needle + after),
{
    if holds_text(hay, needle) {
        let i = choose|i: int| #[trigger] stands_at(hay, needle, i);
        let before = hay.take(i);
        let after = hay.skip(i + needle.len());
        assert(before + needle + after =~= hay) by {
            assert forall|k: int| 0 <= k < hay.len() implies (before + needle + after)[k]
                == hay[k] by {
                if i <= k < i + needle.len() {
                    assert(hay.subrange(i, i + needle.len())[k - i] == needle[k - i]);
                }
            }
        }
    }
    if exists|before: Seq<char>, after: Seq<char>| hay == #[trigger] (before + needle + after) {
        let (before, after) = choose|before: Seq<char>, after: Seq<char>|
            hay == #[trigger] (before + needle + after);
        let i = before.len() as int;
        assert(hay.subrange(i, i + needle.len()) =~= needle);
        assert(stands_at(hay, needle, i));
    }
}

/// Joining is concatenation with the separator between: nothing for no part, the
/// part itself for one, and two runs of parts are joined by joining each.
pub proof fn law_joining_concatenates(a: Seq<Seq<char>>, b: Seq<Seq<char>>, separator: Seq<char>)
    ensures
        joined(Seq::<Seq<char>>::empty(), separator) == Seq::<char>::empty(),
        a.len() == 1 ==> joined(a, separator) == a[0],
        a.len() > 0 && b.len() > 0 ==> joined(a + b, separator) == joined(a, separator) + separator
            + joined(b, separator),
    decreases b.len(),
{
    if a.len() > 0 && b.len() > 0 {
        let all = a + b;
        assert(all.drop_last() =~= a + b.drop_last());
        assert(all.last() == b.last());
        if b.len() == 1 {
            assert(a + b.drop_last() =~= a);
        } else {
            law_joining_concatenates(a, b.drop_last(), separator);
            assert(joined(all, separator) =~= joined(a, separator) + separator + joined(
                b,
                separator,
            ));
        }
    }
}

/// One more part lengthens a joined text by the separator and that part.
pub proof fn law_joining_one_more(parts: Seq<Seq<char>>, part: Seq<char>, separator: Seq<char>)
    ensures
        parts.len() == 0 ==> joined(parts.push(part), separator) == part,
        parts.len() > 0 ==> joined(parts.push(part), separator) == joined(parts, separator)
            + separator + part,
{
    assert(parts.push(part).drop_last() =~= parts);
}

/// A number is written digit by digit: below ten as its one digit, else as the
/// number without its last digit and then that digit.
pub proof fn law_numbers_are_written_in_base_ten(n: nat, d: nat)
    requires
        d < 10,
    ensures
        decimal(d).len() == 1,
        decimal(d)[0] as int == 48 + d,
        n > 0 ==> decimal(10 * n + d).len() == decimal(n).len() + 1,
        n > 0 ==> decimal(10 * n + d).take(decimal(n).len() as int) == decimal(n),
        n > 0 ==> decimal(10 * n + d).last() as int == 48 + d,
{
    if n > 0 {
        let m = 10 * n + d;
        assert(m / 10 == n && m % 10 == d) by (nonlinear_arith)
            requires
                m == 10 * n + d,
                d < 10,
        ;
        assert(decimal(m) == decimal(n).push(((48 + d) as u8) as char));
        assert(decimal(m).take(decimal(n).len() as int) =~= decimal(n));
    }
}

/// A text that is read as a number: one digit is its value, one more digit is ten
/// times the number and that digit, and a leading plus changes nothing.
pub proof fn law_numbers_are_read_in_base_ten(s: Seq<char>, c: char)
    requires
        48 <= c as int && c as int <= 57,
    ensures
        number_of(seq![c]) == Some((c as int - 48) as u64),
        number_of(s) matches Some(v) ==> number_of(s.push(c)) == (if 10 * v + (c as int - 48)
            <= u64::MAX {
            Some((10 * v + (c as int - 48)) as u64)
        } else {
            None
        }),
        s.len() > 0 && s[0] != '+' ==> number_of(seq!['+'] + s) == number_of(s),
{
    let one = seq![c];
    assert(unsigned_part(one) == one);
    assert(one.drop_last().len() == 0);
    assert(all_digits(one));
    assert(digits_value(one.drop_last()) == 0);
    assert(digits_value(one) == (c as int - 48));
    if number_of(s) is Some {
        let digits = unsigned_part(s);
        let more = s.push(c);
        assert(unsigned_part(more) =~= digits.push(c));
        assert(digits.push(c).drop_last() =~= digits);
        assert(all_digits(digits.push(c)));
    }
    if s.len() > 0 && s[0] != '+' {
        assert((seq!['+'] + s).skip(1) =~= s);
    }
}

/// Nothing else is a number: not the empty text, not a plus alone, and not a text
/// with a character that is no digit past an optional plus.
pub proof fn law_other_texts_are_no_numbers(s: Seq<char>, i: int)
    requires
        s.len() == 0 || (s.len() == 1 && s[0] == '+') || (0 <= i < s.len() && !(48 <= s[i] as int
            && s[i] as int <= 57) && !(i == 0 && s[0] == '+')),
    ensures
        number_of(s) is None,
{
    let digits = unsigned_part(s);
    if digits.len() > 0 && all_digits(digits) {
        if s[0] == '+' {
            assert(digits[i - 1] == s[i]);
        } else {
            assert(digits[i] == s[i]);
        }
    }
}

/// What is written is read back: the decimal notation of a number denotes it.
pub proof fn law_written_numbers_are_read_back(n: nat)
    requires
        n <= u64::MAX,
    ensures
        number_of(decimal(n)) == Some(n as u64),
    decreases n,
{
    if n < 10 {
        let c = decimal(n)[0];
        assert(c as int == 48 + n);
        law_numbers_are_read_in_base_ten(seq![c], c);
        assert(decimal(n) =~= seq![c]);
    } else {
        law_written_numbers_are_read_back(n / 10);
        let c = decimal(n).last();
        assert(c as int == 48 + n % 10);
        law_numbers_are_read_in_base_ten(decimal(n / 10), c);
        assert(decimal(n) =~= decimal(n / 10).push(c));
    }
}

/// A gate that passes has no reason, and one that refuses has the very text that
/// it hands back; of two reasons the first counts.
pub proof fn law_refusals_are_the_errors(
    r: Result<(), String>,
    first: Option<Seq<char>>,
    second: Option<Seq<char>>,
)
    ensures
        refusal(r) is None <==> r is Ok,
        r matches Err(reason) ==> refusal(r) == Some(reason@),
        first is Some ==> or_else(first, second) == first,
        first is None ==> or_else(first, second) == second,
{
}

/// The texts of a list of strings are those of its strings, one for one.
pub proof fn law_texts_are_one_for_one(list: Seq<String>, i: int)
    ensures
        texts(list).len() == list.len(),
        0 <= i < list.len() ==> texts(list)[i] == list[i]@,
{
}

/// A text is made of allowed characters exactly if none of its characters is
/// another.
pub proof fn law_made_of_means_every_character(
    text: Seq<char>,
    allowed: spec_fn(char) -> bool,
    i: int,
)
    ensures
        made_of(text, allowed) && 0 <= i < text.len() ==> allowed(text[i]),
        0 <= i < text.len() && !allowed(text[i]) ==> !made_of(text, allowed),
{
}

} // verus!
