//! Normal form of the SQL that SQLite keeps of its schema objects.

use crate::text::{ascii_lowercase, ascii_space, characters, is_ascii_space, spelled};
use vstd::prelude::*;

verus! {

/// The lower case of a character outside of ASCII, which may be several
/// characters.
pub uninterp spec fn lowercase_of(character: char) -> Seq<char>;

/// Whether a character is an ASCII character.
pub open spec fn is_ascii(character: char) -> bool {
    (character as u32) < 128
}

/// The lower case of a character.
pub open spec fn lower_case(character: char) -> Seq<char> {
    if is_ascii(character) {
        seq![ascii_lowercase(character)]
    } else {
        lowercase_of(character)
    }
}

/// `char::to_lowercase`: the lower case of one character. It depends on the
/// character alone; of an ASCII character it is the ASCII lower case. Not claimed
/// is that the lower case of another character is its own lower case.
#[verifier::external_body]
fn to_lowercase(character: char) -> (lower: Vec<char>)
    ensures
        is_ascii(character) ==> lower@ == seq![ascii_lowercase(character)],
        !is_ascii(character) ==> lower@ == lowercase_of(character),
{
    character.to_lowercase().collect()
}

/// Whether a text ends inside a string literal: it holds an odd number of single
/// quotes.
pub open spec fn in_string(text: Seq<char>) -> bool
    decreases text.len(),
{
    if text.len() == 0 {
        false
    } else if text.last() == '\'' {
        !in_string(text.drop_last())
    } else {
        in_string(text.drop_last())
    }
}

/// What the normal form keeps of a character: white space goes, and outside of
/// string literals identifier quotes go and letters become lower case.
pub open spec fn kept(character: char, inside: bool) -> Seq<char> {
    if character == '\'' {
        seq![character]
    } else if is_ascii_space(character) || (character == '"' && !inside) {
        Seq::empty()
    } else if inside {
        seq![character]
    } else {
        lower_case(character)
    }
}

/// The normal form of a definition.
pub open spec fn normalized(text: Seq<char>) -> Seq<char>
    decreases text.len(),
{
    if text.len() == 0 {
        Seq::empty()
    } else {
        normalized(text.drop_last()) + kept(text.last(), in_string(text.drop_last()))
    }
}

/// Appends what the normal form keeps of a character.
fn keep(list: &mut Vec<char>, character: char, inside: bool)
    ensures
        final(list)@ == old(list)@ + kept(character, inside),
{
    if character == '\'' {
        list.push(character);
        assert(list@ =~= old(list)@ + kept(character, inside));
    } else if ascii_space(character) || (character == '"' && !inside) {
        assert(list@ =~= old(list)@ + kept(character, inside));
    } else if inside {
        list.push(character);
        assert(list@ =~= old(list)@ + kept(character, inside));
    } else {
        let mut lower = to_lowercase(character);
        list.append(&mut lower);
    }
}

/// The normal form of a definition.
pub fn normalize_sql(value: &str) -> (normalized_text: String)
    ensures
        normalized_text@ == normalized(value@),
{
    let text = characters(value);
    let mut normal: Vec<char> = Vec::new();
    let mut inside = false;
    let mut index: usize = 0;
    assert(text@.take(0) =~= Seq::<char>::empty());
    while index < text.len()
        invariant
            index <= text@.len(),
            inside == in_string(text@.take(index as int)),
            normal@ == normalized(text@.take(index as int)),
        decreases text@.len() - index,
    {
        let character = text[index];
        proof {
            let longer = text@.take(index + 1);
            assert(longer.drop_last() =~= text@.take(index as int));
            assert(longer.last() == character);
        }
        keep(&mut normal, character, inside);
        if character == '\'' {
            inside = !inside;
        }
        index = index + 1;
    }
    assert(text@.take(text@.len() as int) =~= value@);
    assert(normal@.subrange(0, normal@.len() as int) =~= normal@);
    spelled(normal.as_slice(), 0, normal.len())
}

proof fn lemma_space_keeps_strings(before: Seq<char>, space: char, after: Seq<char>)
    requires
        is_ascii_space(space),
    ensures
        in_string(before.push(space) + after) == in_string(before + after),
    decreases after.len(),
{
    if after.len() == 0 {
        assert(before.push(space) + after =~= before.push(space));
        assert(before + after =~= before);
        assert(before.push(space).drop_last() =~= before);
    } else {
        lemma_space_keeps_strings(before, space, after.drop_last());
        assert((before.push(space) + after).drop_last() =~= before.push(space) + after.drop_last());
        assert((before + after).drop_last() =~= before + after.drop_last());
        assert((before.push(space) + after).last() == after.last());
        assert((before + after).last() == after.last());
    }
}

/// White space never matters: adding one white-space character anywhere leaves
/// the normal form as it is.
pub proof fn white_space_never_matters(before: Seq<char>, space: char, after: Seq<char>)
    requires
        is_ascii_space(space),
    ensures
        normalized(before.push(space) + after) == normalized(before + after),
    decreases after.len(),
{
    if after.len() == 0 {
        assert(before.push(space) + after =~= before.push(space));
        assert(before + after =~= before);
        assert(before.push(space).drop_last() =~= before);
        assert(normalized(before) + Seq::<char>::empty() =~= normalized(before));
    } else {
        white_space_never_matters(before, space, after.drop_last());
        lemma_space_keeps_strings(before, space, after.drop_last());
        assert((before.push(space) + after).drop_last() =~= before.push(space) + after.drop_last());
        assert((before + after).drop_last() =~= before + after.drop_last());
        assert((before.push(space) + after).last() == after.last());
        assert((before + after).last() == after.last());
    }
}

/// Identifier quotes never matter: adding a double quote outside of string
/// literals leaves the normal form as it is.
pub proof fn identifier_quotes_never_matter(before: Seq<char>, after: Seq<char>)
    requires
        !in_string(before),
    ensures
        in_string(before.push('"') + after) == in_string(before + after),
        normalized(before.push('"') + after) == normalized(before + after),
    decreases after.len(),
{
    if after.len() == 0 {
        assert(before.push('"') + after =~= before.push('"'));
        assert(before + after =~= before);
        assert(before.push('"').drop_last() =~= before);
        assert(normalized(before) + Seq::<char>::empty() =~= normalized(before));
    } else {
        identifier_quotes_never_matter(before, after.drop_last());
        assert((before.push('"') + after).drop_last() =~= before.push('"') + after.drop_last());
        assert((before + after).drop_last() =~= before + after.drop_last());
        assert((before.push('"') + after).last() == after.last());
        assert((before + after).last() == after.last());
    }
}

/// A text without those identifier quotes, double quotes outside of string literals,
/// at the places that `dropped` picks.
pub open spec fn without_quotes(text: Seq<char>, dropped: spec_fn(int) -> bool) -> Seq<char>
    decreases text.len(),
{
    if text.len() == 0 {
        text
    } else {
        let before = text.drop_last();
        if text.last() == '"' && !in_string(before) && dropped(text.len() - 1) {
            without_quotes(before, dropped)
        } else {
            without_quotes(before, dropped).push(text.last())
        }
    }
}

/// Any identifier quotes can be left out of a definition without a change of its
/// normal form.
pub proof fn identifier_quotes_can_be_left_out(text: Seq<char>, dropped: spec_fn(int) -> bool)
    ensures
        in_string(without_quotes(text, dropped)) == in_string(text),
        normalized(without_quotes(text, dropped)) == normalized(text),
    decreases text.len(),
{
    if text.len() > 0 {
        let before = text.drop_last();
        identifier_quotes_can_be_left_out(before, dropped);
        let shorter = without_quotes(before, dropped);
        assert(shorter.push(text.last()).drop_last() == shorter);
        assert(normalized(before) + Seq::<char>::empty() == normalized(before));
    }
}

/// Whether lower case leaves the lower case of a character as it is, and puts no
/// quote and no white space in its place. So it does of every ASCII character
/// that is neither.
pub open spec fn settles(character: char) -> bool {
    let lower = lower_case(character);
    forall|i: int|
        0 <= i < lower.len() ==> {
            &&& lower_case(#[trigger] lower[i]) == seq![lower[i]]
            &&& !is_ascii_space(lower[i])
            &&& lower[i] != '"'
            &&& lower[i] != '\''
        }
}

/// Whether the characters of a text that are not ASCII settle, wherever they
/// stand outside of string literals.
pub open spec fn all_settle(text: Seq<char>) -> bool {
    forall|i: int|
        0 <= i < text.len() && !is_ascii(#[trigger] text[i]) && !in_string(text.take(i))
            ==> settles(text[i])
}

/// The characters that stand in the string literals of a text, with the quotes,
/// without white space.
pub open spec fn literals(text: Seq<char>) -> Seq<char>
    decreases text.len(),
{
    if text.len() == 0 {
        Seq::empty()
    } else if text.last() == '\'' || (in_string(text.drop_last()) && !is_ascii_space(text.last())) {
        literals(text.drop_last()).push(text.last())
    } else {
        literals(text.drop_last())
    }
}

/// What the normal form leaves as it is outside of string literals is appended to
/// it.
proof fn lemma_normal_tail(form: Seq<char>, tail: Seq<char>)
    requires
        !in_string(form),
        forall|i: int|
            0 <= i < tail.len() ==> kept(#[trigger] tail[i], false) == seq![tail[i]] && tail[i]
                != '\'',
    ensures
        !in_string(form + tail),
        normalized(form + tail) == normalized(form) + tail,
        literals(form + tail) == literals(form),
    decreases tail.len(),
{
    if tail.len() == 0 {
        assert(form + tail == form);
        assert(normalized(form) + tail == normalized(form));
    } else {
        lemma_normal_tail(form, tail.drop_last());
        assert((form + tail).drop_last() == form + tail.drop_last());
        assert((form + tail).last() == tail[tail.len() - 1]);
        assert(normalized(form + tail) == normalized(form) + tail);
    }
}

/// A normal form is its own normal form, and has the literals of its text.
proof fn lemma_normal_forms_are_settled(text: Seq<char>)
    requires
        all_settle(text),
    ensures
        normalized(normalized(text)) == normalized(text),
        in_string(normalized(text)) == in_string(text),
        literals(normalized(text)) == literals(text),
    decreases text.len(),
{
    if text.len() > 0 {
        let rest = text.drop_last();
        let character = text.last();
        let inside = in_string(rest);
        let form = normalized(rest);
        assert forall|i: int|
            0 <= i < rest.len() && !is_ascii(#[trigger] rest[i]) && !in_string(
                rest.take(i),
            ) implies settles(rest[i]) by {
            assert(rest.take(i) == text.take(i));
            assert(rest[i] == text[i]);
        }
        lemma_normal_forms_are_settled(rest);
        let more = kept(character, inside);
        if more.len() == 0 {
            assert(form + more == form);
        } else if character == '\'' || inside {
            assert(form + more == form.push(character));
            assert(form.push(character).drop_last() == form);
            assert(normalized(form.push(character)) == form.push(character));
        } else {
            assert(text.take(text.len() - 1) == rest);
            assert(text[text.len() - 1] == character);
            assert(settles(character));
            lemma_normal_tail(form, more);
        }
    }
}

/// A normal form is its own normal form. For a character outside of ASCII this
/// takes that its lower case is final.
pub proof fn normal_forms_are_their_own(text: Seq<char>)
    ensures
        all_settle(text) ==> normalized(normalized(text)) == normalized(text),
{
    if all_settle(text) {
        lemma_normal_forms_are_settled(text);
    }
}

/// Every single quote and everything in a string literal but white space shows in
/// the normal form: definitions whose literals differ in more than white space,
/// be it in letter case alone, have different normal forms.
pub proof fn literals_always_matter(left: Seq<char>, right: Seq<char>)
    ensures
        all_settle(left) && all_settle(right) && normalized(left) == normalized(right)
            ==> literals(left) == literals(right),
{
    if all_settle(left) && all_settle(right) {
        lemma_normal_forms_are_settled(left);
        lemma_normal_forms_are_settled(right);
    }
}

proof fn lemma_quotes_are_counted(text: Seq<char>)
    ensures
        in_string(text) <==> text.filter(|character: char| character == '\'').len() % 2 == 1,
    decreases text.len(),
{
    reveal(Seq::filter);
    if text.len() > 0 {
        lemma_quotes_are_counted(text.drop_last());
    }
}

/// A longer definition has a longer normal form, or the same one. A quote is always
/// kept and white space never. After an even number of quotes a double quote is not
/// kept and a letter of ASCII is kept in lower case; after an odd number, inside of a
/// string literal, both are kept as they are. Nothing has nothing as its normal form.
pub proof fn characters_are_normalized_by_their_place(
    shorter: &str,
    longer: &str,
    character: char,
    short_form: String,
    long_form: String,
)
    requires
        call_ensures(normalize_sql, (shorter,), short_form),
        call_ensures(normalize_sql, (longer,), long_form),
        longer@ == shorter@.push(character),
    ensures
        shorter@.len() == 0 ==> short_form@.len() == 0,
        character == '\'' ==> long_form@ == short_form@.push(character),
        character as int == 32 || character as int == 9 || character as int == 10 || character as int
            == 12 || character as int == 13 ==> long_form@ == short_form@,
        shorter@.filter(|one: char| one == '\'').len() % 2 == 1 && character as int > 32
            ==> long_form@ == short_form@.push(character),
        shorter@.filter(|one: char| one == '\'').len() % 2 == 0 && character == '"' ==> long_form@
            == short_form@,
        shorter@.filter(|one: char| one == '\'').len() % 2 == 0 && 'A' <= character && character
            <= 'Z' ==> long_form@ == short_form@.push((character as u8 + 32) as char),
        shorter@.filter(|one: char| one == '\'').len() % 2 == 0 && 32 < character as int
            && character as int <= 126 && character != '"' && !('A' <= character && character <= 'Z')
            ==> long_form@ == short_form@.push(character),
{
    lemma_quotes_are_counted(shorter@);
    assert(longer@.drop_last() =~= shorter@);
    assert(normalized(shorter@) + seq![character] =~= normalized(shorter@).push(character));
    assert(normalized(shorter@) + Seq::<char>::empty() =~= normalized(shorter@));
    assert(normalized(shorter@) + seq![ascii_lowercase(character)] =~= normalized(shorter@).push(
        ascii_lowercase(character),
    ));
}

} // verus!
