//! Normal form of PostgreSQL's version-dependent catalog renderings.

use crate::text::{
    ascii_lowercase, ascii_space, characters, is_ascii_space, lower, lowered, occurs_at, spelled,
    stands_at,
};
use vstd::prelude::*;

verus! {

/// A text without the occurrences of `needle`, taken from left to right.
pub open spec fn without(text: Seq<char>, needle: Seq<char>) -> Seq<char>
    decreases text.len(),
{
    if needle.len() == 0 || text.len() == 0 {
        text
    } else if occurs_at(text, needle, 0) {
        without(text.skip(needle.len() as int), needle)
    } else {
        seq![text[0]] + without(text.skip(1), needle)
    }
}

/// A text without the occurrences of each needle in turn.
pub open spec fn without_all(text: Seq<char>, needles: Seq<Seq<char>>) -> Seq<char>
    decreases needles.len(),
{
    if needles.len() == 0 {
        text
    } else {
        without(without_all(text, needles.drop_last()), needles.last())
    }
}

/// A text without ASCII white space.
pub open spec fn spaceless(text: Seq<char>) -> Seq<char>
    decreases text.len(),
{
    if text.len() == 0 {
        text
    } else if is_ascii_space(text.last()) {
        spaceless(text.drop_last())
    } else {
        spaceless(text.drop_last()).push(text.last())
    }
}

/// The casts that PostgreSQL writes into rendered expressions, longer spellings
/// before the shorter ones that they begin with.
pub open spec fn rendered_casts() -> Seq<Seq<char>> {
    seq![
        "::character varying[]"@,
        "::character varying"@,
        "::timestamp with time zone"@,
        "::timestamp without time zone"@,
        "::double precision"@,
        "::numeric"@,
        "::bigint"@,
        "::integer"@,
        "::smallint"@,
        "::boolean"@,
        "::text[]"@,
        "::text"@,
    ]
}

/// The normal form of a rendered SQL expression: lower case, without casts and
/// without white space.
pub open spec fn normalized(text: Seq<char>) -> Seq<char> {
    spaceless(without_all(lowered(text), rendered_casts()))
}

fn remove(text: &Vec<char>, needle: &str) -> (list: Vec<char>)
    requires
        needle@.len() > 0,
    ensures
        list@ == without(text@, needle@),
{
    let pattern = characters(needle);
    let mut list: Vec<char> = Vec::new();
    let mut index: usize = 0;
    assert(text@.skip(0) =~= text@);
    while index < text.len()
        invariant
            pattern@ == needle@,
            needle@.len() > 0,
            index <= text@.len(),
            list@ + without(text@.skip(index as int), needle@) == without(text@, needle@),
        decreases text@.len() - index,
    {
        let ghost rest = text@.skip(index as int);
        if stands_at(text.as_slice(), pattern.as_slice(), index) {
            proof {
                assert(rest.subrange(0, needle@.len() as int) =~= text@.subrange(
                    index as int,
                    index + needle@.len(),
                ));
                assert(rest.skip(needle@.len() as int) =~= text@.skip(index + needle@.len()));
            }
            index = index + pattern.len();
        } else {
            proof {
                if occurs_at(rest, needle@, 0) {
                    assert(rest.subrange(0, needle@.len() as int) =~= text@.subrange(
                        index as int,
                        index + needle@.len(),
                    ));
                }
                assert(rest.skip(1) =~= text@.skip(index + 1));
                assert((list@ + (seq![rest[0]] + without(rest.skip(1), needle@))) =~= (list@.push(
                    rest[0],
                ) + without(rest.skip(1), needle@)));
            }
            list.push(text[index]);
            index = index + 1;
        }
    }
    assert(text@.skip(index as int) =~= Seq::<char>::empty());
    assert(list@ + Seq::<char>::empty() =~= list@);
    list
}

fn strip_spaces(text: &Vec<char>) -> (list: Vec<char>)
    ensures
        list@ == spaceless(text@),
{
    let mut list: Vec<char> = Vec::new();
    let mut index: usize = 0;
    assert(text@.take(0) =~= Seq::<char>::empty());
    while index < text.len()
        invariant
            index <= text@.len(),
            list@ == spaceless(text@.take(index as int)),
        decreases text@.len() - index,
    {
        let character = text[index];
        assert(text@.take(index + 1).drop_last() =~= text@.take(index as int));
        if !ascii_space(character) {
            list.push(character);
        }
        index = index + 1;
    }
    assert(text@.take(index as int) =~= text@);
    list
}

/// Normalizes PostgreSQL's version-dependent catalog rendering for comparison.
pub fn normalize_sql(value: &str) -> (text: String)
    ensures
        text@ == normalized(value@),
{
    let casts: [&'static str; 12] = [
        "::character varying[]",
        "::character varying",
        "::timestamp with time zone",
        "::timestamp without time zone",
        "::double precision",
        "::numeric",
        "::bigint",
        "::integer",
        "::smallint",
        "::boolean",
        "::text[]",
        "::text",
    ];
    let ghost needles = rendered_casts();
    proof {
        reveal_strlit("::character varying[]");
        reveal_strlit("::character varying");
        reveal_strlit("::timestamp with time zone");
        reveal_strlit("::timestamp without time zone");
        reveal_strlit("::double precision");
        reveal_strlit("::numeric");
        reveal_strlit("::bigint");
        reveal_strlit("::integer");
        reveal_strlit("::smallint");
        reveal_strlit("::boolean");
        reveal_strlit("::text[]");
        reveal_strlit("::text");
        assert(needles.take(0) =~= Seq::<Seq<char>>::empty());
    }
    let start = characters(value);
    let mut list = lower(&start);
    let mut index: usize = 0;
    while index < casts.len()
        invariant
            needles.len() == 12,
            casts@.len() == 12,
            forall|i: int| 0 <= i < 12 ==> (#[trigger] casts@[i])@ == needles[i],
            forall|i: int| 0 <= i < 12 ==> (#[trigger] needles[i]).len() > 0,
            index <= 12,
            list@ == without_all(lowered(value@), needles.take(index as int)),
        decreases 12 - index,
    {
        assert(casts@[index as int]@ == needles[index as int]);
        list = remove(&list, casts[index]);
        index = index + 1;
        assert(needles.take(index as int).drop_last() =~= needles.take(index - 1));
    }
    assert(needles.take(12) =~= needles);
    let list = strip_spaces(&list);
    assert(list@.subrange(0, list@.len() as int) =~= list@);
    spelled(list.as_slice(), 0, list.len())
}

/// Whether every character of a text satisfies a predicate.
pub open spec fn every(text: Seq<char>, holds: spec_fn(char) -> bool) -> bool {
    forall|i: int| 0 <= i < text.len() ==> holds(#[trigger] text[i])
}

proof fn lemma_without_keeps(text: Seq<char>, needle: Seq<char>, holds: spec_fn(char) -> bool)
    requires
        every(text, holds),
    ensures
        every(without(text, needle), holds),
    decreases text.len(),
{
    if needle.len() == 0 || text.len() == 0 {
    } else if occurs_at(text, needle, 0) {
        lemma_without_keeps(text.skip(needle.len() as int), needle, holds);
    } else {
        lemma_without_keeps(text.skip(1), needle, holds);
        assert(holds(text[0]));
    }
}

proof fn lemma_without_all_keeps(
    text: Seq<char>,
    needles: Seq<Seq<char>>,
    holds: spec_fn(char) -> bool,
)
    requires
        every(text, holds),
    ensures
        every(without_all(text, needles), holds),
    decreases needles.len(),
{
    if needles.len() > 0 {
        lemma_without_all_keeps(text, needles.drop_last(), holds);
        lemma_without_keeps(without_all(text, needles.drop_last()), needles.last(), holds);
    }
}

proof fn lemma_spaceless_keeps(text: Seq<char>, holds: spec_fn(char) -> bool)
    requires
        every(text, holds),
    ensures
        every(spaceless(text), holds),
        every(spaceless(text), |character: char| !is_ascii_space(character)),
    decreases text.len(),
{
    if text.len() > 0 {
        lemma_spaceless_keeps(text.drop_last(), holds);
        assert(holds(text.last()));
    }
}

/// A normal form has no white space and no ASCII capitals.
pub proof fn normal_forms_are_lower_case_and_spaceless(text: Seq<char>)
    ensures
        every(
            normalized(text),
            |character: char| !is_ascii_space(character) && !('A' <= character && character <= 'Z'),
        ),
{
    let small = |character: char| !('A' <= character && character <= 'Z');
    assert forall|i: int| 0 <= i < lowered(text).len() implies small(#[trigger] lowered(text)[i]) by {
        let character = text[i];
        if 'A' <= character && character <= 'Z' {
            assert(ascii_lowercase(character) as int == character as int + 32);
        }
    }
    lemma_without_all_keeps(lowered(text), rendered_casts(), small);
    lemma_spaceless_keeps(without_all(lowered(text), rendered_casts()), small);
    let form = normalized(text);
    assert forall|i: int| 0 <= i < form.len() implies !is_ascii_space(#[trigger] form[i]) && !('A'
        <= form[i] && form[i] <= 'Z') by {
        assert(small(form[i]));
    }
}

/// Letter case makes no difference to a normal form.
pub proof fn normal_forms_ignore_case(left: Seq<char>, right: Seq<char>)
    requires
        lowered(left) == lowered(right),
    ensures
        normalized(left) == normalized(right),
{
}

/// Whether a character is a parenthesis.
pub open spec fn is_parenthesis(character: char) -> bool {
    character == '(' || character == ')'
}

/// The parentheses of a text, each with the normal form of what stands before it.
pub open spec fn grouping(text: Seq<char>) -> Seq<(Seq<char>, char)>
    decreases text.len(),
{
    if text.len() == 0 {
        Seq::empty()
    } else if is_parenthesis(text.last()) {
        grouping(text.drop_last()).push((normalized(text.drop_last()), text.last()))
    } else {
        grouping(text.drop_last())
    }
}

/// The parentheses of a normal form, each with what stands before it.
spec fn shape(form: Seq<char>) -> Seq<(Seq<char>, char)>
    decreases form.len(),
{
    if form.len() == 0 {
        Seq::empty()
    } else if is_parenthesis(form.last()) {
        shape(form.drop_last()).push((form.drop_last(), form.last()))
    } else {
        shape(form.drop_last())
    }
}

proof fn lemma_without_splits(
    before: Seq<char>,
    parenthesis: char,
    after: Seq<char>,
    needle: Seq<char>,
)
    requires
        is_parenthesis(parenthesis),
        every(needle, |character: char| !is_parenthesis(character)),
    ensures
        without(before.push(parenthesis) + after, needle) == without(before, needle).push(
            parenthesis,
        ) + without(after, needle),
    decreases before.len(),
{
    let text = before.push(parenthesis) + after;
    if needle.len() == 0 {
    } else if before.len() == 0 {
        if occurs_at(text, needle, 0) {
            assert(needle[0] == text.subrange(0, needle.len() as int)[0]);
        }
        assert(text.skip(1) == after);
        assert(without(before, needle) == before);
    } else {
        if occurs_at(text, needle, 0) {
            assert(needle == text.subrange(0, needle.len() as int));
            if needle.len() > before.len() {
                assert(needle[before.len() as int] == text[before.len() as int]);
            }
            assert(text.subrange(0, needle.len() as int) == before.subrange(
                0,
                needle.len() as int,
            ));
            let rest = before.skip(needle.len() as int);
            assert(text.skip(needle.len() as int) == rest.push(parenthesis) + after);
            lemma_without_splits(rest, parenthesis, after, needle);
        } else {
            if occurs_at(before, needle, 0) {
                assert(text.subrange(0, needle.len() as int) == before.subrange(
                    0,
                    needle.len() as int,
                ));
            }
            let rest = before.skip(1);
            assert(text.skip(1) == rest.push(parenthesis) + after);
            lemma_without_splits(rest, parenthesis, after, needle);
            assert(without(text, needle) == without(before, needle).push(parenthesis) + without(
                after,
                needle,
            ));
        }
    }
}

proof fn lemma_without_all_splits(
    before: Seq<char>,
    parenthesis: char,
    after: Seq<char>,
    needles: Seq<Seq<char>>,
)
    requires
        is_parenthesis(parenthesis),
        forall|i: int|
            0 <= i < needles.len() ==> every(
                #[trigger] needles[i],
                |character: char| !is_parenthesis(character),
            ),
    ensures
        without_all(before.push(parenthesis) + after, needles) == without_all(before, needles).push(
            parenthesis,
        ) + without_all(after, needles),
    decreases needles.len(),
{
    if needles.len() > 0 {
        lemma_without_all_splits(before, parenthesis, after, needles.drop_last());
        assert(needles.last() == needles[needles.len() - 1]);
        lemma_without_splits(
            without_all(before, needles.drop_last()),
            parenthesis,
            without_all(after, needles.drop_last()),
            needles.last(),
        );
    }
}

proof fn lemma_spaceless_splits(before: Seq<char>, after: Seq<char>)
    ensures
        spaceless(before + after) == spaceless(before) + spaceless(after),
    decreases after.len(),
{
    if after.len() == 0 {
        assert(before + after == before);
        assert(spaceless(before) + spaceless(after) == spaceless(before));
    } else {
        lemma_spaceless_splits(before, after.drop_last());
        assert((before + after).drop_last() == before + after.drop_last());
        assert((before + after).last() == after.last());
        assert(spaceless(before + after) == spaceless(before) + spaceless(after));
    }
}

proof fn lemma_casts_hold_no_parentheses()
    ensures
        forall|i: int|
            0 <= i < rendered_casts().len() ==> every(
                #[trigger] rendered_casts()[i],
                |character: char| !is_parenthesis(character),
            ),
{
    reveal_strlit("::character varying[]");
    reveal_strlit("::character varying");
    reveal_strlit("::timestamp with time zone");
    reveal_strlit("::timestamp without time zone");
    reveal_strlit("::double precision");
    reveal_strlit("::numeric");
    reveal_strlit("::bigint");
    reveal_strlit("::integer");
    reveal_strlit("::smallint");
    reveal_strlit("::boolean");
    reveal_strlit("::text[]");
    reveal_strlit("::text");
}

/// A parenthesis keeps its place: the normal form of a text is that of what
/// stands before the parenthesis, the parenthesis, and the normal form of what
/// follows.
pub proof fn parentheses_keep_their_place(
    before: Seq<char>,
    parenthesis: char,
    after: Seq<char>,
)
    requires
        is_parenthesis(parenthesis),
    ensures
        normalized(before.push(parenthesis) + after) == normalized(before).push(parenthesis)
            + normalized(after),
{
    let casts = rendered_casts();
    lemma_casts_hold_no_parentheses();
    assert(lowered(before.push(parenthesis) + after) == lowered(before).push(parenthesis) + lowered(
        after,
    ));
    lemma_without_all_splits(lowered(before), parenthesis, lowered(after), casts);
    let head = without_all(lowered(before), casts);
    lemma_spaceless_splits(head.push(parenthesis), without_all(lowered(after), casts));
    assert(head.push(parenthesis).drop_last() == head);
}

proof fn lemma_plain_tail_keeps_shape(form: Seq<char>, tail: Seq<char>)
    requires
        every(tail, |character: char| !is_parenthesis(character)),
    ensures
        shape(form + tail) == shape(form),
    decreases tail.len(),
{
    if tail.len() == 0 {
        assert(form + tail == form);
    } else {
        lemma_plain_tail_keeps_shape(form, tail.drop_last());
        assert((form + tail).drop_last() == form + tail.drop_last());
        assert((form + tail).last() == tail.last());
        assert(!is_parenthesis(tail[tail.len() - 1]));
    }
}

proof fn lemma_plain_tail_keeps_grouping(text: Seq<char>, tail: Seq<char>)
    requires
        every(tail, |character: char| !is_parenthesis(character)),
    ensures
        grouping(text + tail) == grouping(text),
    decreases tail.len(),
{
    if tail.len() == 0 {
        assert(text + tail == text);
    } else {
        lemma_plain_tail_keeps_grouping(text, tail.drop_last());
        assert((text + tail).drop_last() == text + tail.drop_last());
        assert((text + tail).last() == tail.last());
        assert(!is_parenthesis(tail[tail.len() - 1]));
    }
}

/// The normal form of a text without parentheses has none either.
proof fn lemma_plain_texts_stay_plain(text: Seq<char>)
    requires
        every(text, |character: char| !is_parenthesis(character)),
    ensures
        every(normalized(text), |character: char| !is_parenthesis(character)),
{
    let plain = |character: char| !is_parenthesis(character);
    assert forall|i: int| 0 <= i < lowered(text).len() implies plain(#[trigger] lowered(text)[i]) by {
        let character = text[i];
        assert(plain(character));
        if 'A' <= character && character <= 'Z' {
            assert(ascii_lowercase(character) as int == character as int + 32);
        }
    }
    lemma_without_all_keeps(lowered(text), rendered_casts(), plain);
    lemma_spaceless_keeps(without_all(lowered(text), rendered_casts()), plain);
}

/// A text is plain up to its end, or plain after its last parenthesis.
proof fn lemma_last_parenthesis(text: Seq<char>) -> (place: int)
    ensures
        -1 <= place < text.len(),
        place >= 0 ==> is_parenthesis(text[place]),
        every(text.skip(place + 1), |character: char| !is_parenthesis(character)),
    decreases text.len(),
{
    if text.len() == 0 {
        -1
    } else if is_parenthesis(text.last()) {
        text.len() - 1
    } else {
        let place = lemma_last_parenthesis(text.drop_last());
        let tail = text.skip(place + 1);
        let shorter = text.drop_last().skip(place + 1);
        assert forall|i: int| 0 <= i < tail.len() implies !is_parenthesis(#[trigger] tail[i]) by {
            if i < shorter.len() {
                assert(shorter[i] == tail[i]);
            }
        }
        place
    }
}

proof fn lemma_shape_is_grouping(text: Seq<char>)
    ensures
        shape(normalized(text)) == grouping(text),
    decreases text.len(),
{
    let place = lemma_last_parenthesis(text);
    let tail = text.skip(place + 1);
    lemma_plain_texts_stay_plain(tail);
    if place < 0 {
        assert(text == Seq::<char>::empty() + tail);
        lemma_plain_tail_keeps_grouping(Seq::empty(), tail);
        assert(normalized(text) == Seq::<char>::empty() + normalized(tail));
        lemma_plain_tail_keeps_shape(Seq::empty(), normalized(tail));
    } else {
        let head = text.take(place);
        let parenthesis = text[place];
        assert(text == head.push(parenthesis) + tail);
        lemma_shape_is_grouping(head);
        parentheses_keep_their_place(head, parenthesis, tail);
        lemma_plain_tail_keeps_grouping(head.push(parenthesis), tail);
        lemma_plain_tail_keeps_shape(normalized(head).push(parenthesis), normalized(tail));
        assert(head.push(parenthesis).drop_last() == head);
        assert(normalized(head).push(parenthesis).drop_last() == normalized(head));
    }
}

/// Different parentheses give different normal forms: texts with one normal form
/// have the same parentheses, each after the same text.
pub proof fn normal_forms_keep_grouping(left: Seq<char>, right: Seq<char>)
    requires
        normalized(left) == normalized(right),
    ensures
        grouping(left) == grouping(right),
{
    lemma_shape_is_grouping(left);
    lemma_shape_is_grouping(right);
}

proof fn lemma_without_nothing(text: Seq<char>, needle: Seq<char>)
    requires
        needle.len() > 0,
        needle[0] == ':',
        every(text, |character: char| character != ':'),
    ensures
        without(text, needle) == text,
    decreases text.len(),
{
    if text.len() > 0 {
        if occurs_at(text, needle, 0) {
            assert(text.subrange(0, needle.len() as int)[0] == text[0]);
        }
        assert(text[0] != ':');
        lemma_without_nothing(text.skip(1), needle);
        assert(seq![text[0]] + text.skip(1) =~= text);
    }
}

proof fn lemma_without_all_nothing(text: Seq<char>, needles: Seq<Seq<char>>)
    requires
        forall|i: int|
            0 <= i < needles.len() ==> (#[trigger] needles[i]).len() > 0 && needles[i][0] == ':',
        every(text, |character: char| character != ':'),
    ensures
        without_all(text, needles) == text,
    decreases needles.len(),
{
    if needles.len() > 0 {
        assert(needles.last() == needles[needles.len() - 1]);
        lemma_without_all_nothing(text, needles.drop_last());
        lemma_without_nothing(text, needles.last());
    }
}

proof fn lemma_casts_begin_with_colons()
    ensures
        forall|i: int|
            0 <= i < rendered_casts().len() ==> (#[trigger] rendered_casts()[i]).len() > 0
                && rendered_casts()[i][0] == ':',
{
    reveal_strlit("::character varying[]");
    reveal_strlit("::character varying");
    reveal_strlit("::timestamp with time zone");
    reveal_strlit("::timestamp without time zone");
    reveal_strlit("::double precision");
    reveal_strlit("::numeric");
    reveal_strlit("::bigint");
    reveal_strlit("::integer");
    reveal_strlit("::smallint");
    reveal_strlit("::boolean");
    reveal_strlit("::text[]");
    reveal_strlit("::text");
}

/// A text without a colon loses nothing but its white space and the case of its
/// letters: its normal form is the text in lower case without white space.
pub proof fn plain_texts_keep_every_character(value: &str, text: String)
    requires
        call_ensures(normalize_sql, (value,), text),
        every(value@, |character: char| character != ':'),
    ensures
        text@ == value@.map_values(|character: char| ascii_lowercase(character)).filter(
            |character: char| !is_ascii_space(character),
        ),
{
    let small = lowered(value@);
    assert forall|i: int| 0 <= i < small.len() implies (#[trigger] small[i]) != ':' by {
        let character = value@[i];
        assert(character != ':');
        if 'A' <= character && character <= 'Z' {
            assert(ascii_lowercase(character) as int == character as int + 32);
        }
    }
    lemma_casts_begin_with_colons();
    lemma_without_all_nothing(small, rendered_casts());
    lemma_spaceless_filters(small);
    assert(small =~= value@.map_values(|character: char| ascii_lowercase(character)));
}

proof fn lemma_spaceless_filters(text: Seq<char>)
    ensures
        spaceless(text) == text.filter(|character: char| !is_ascii_space(character)),
    decreases text.len(),
{
    reveal(Seq::filter);
    if text.len() > 0 {
        lemma_spaceless_filters(text.drop_last());
    }
}

/// Texts without a colon that have one normal form hold the same characters, up to
/// white space and letter case, in the same order.
pub proof fn plain_texts_with_one_normal_form_are_alike(left: Seq<char>, right: Seq<char>)
    requires
        every(left, |character: char| character != ':'),
        every(right, |character: char| character != ':'),
        every(left, |character: char| !is_ascii_space(character)),
        every(right, |character: char| !is_ascii_space(character)),
        normalized(left) == normalized(right),
    ensures
        lowered(left) == lowered(right),
{
    lemma_plain_normal_form(left);
    lemma_plain_normal_form(right);
}

proof fn lemma_plain_normal_form(text: Seq<char>)
    requires
        every(text, |character: char| character != ':'),
        every(text, |character: char| !is_ascii_space(character)),
    ensures
        normalized(text) == lowered(text),
{
    let small = lowered(text);
    assert forall|i: int| 0 <= i < small.len() implies (#[trigger] small[i]) != ':'
        && !is_ascii_space(small[i]) by {
        let character = text[i];
        assert(character != ':' && !is_ascii_space(character));
        if 'A' <= character && character <= 'Z' {
            assert(ascii_lowercase(character) as int == character as int + 32);
        }
    }
    lemma_casts_begin_with_colons();
    lemma_without_all_nothing(small, rendered_casts());
    lemma_spaceless_nothing(small);
}

proof fn lemma_spaceless_nothing(text: Seq<char>)
    requires
        every(text, |character: char| !is_ascii_space(character)),
    ensures
        spaceless(text) == text,
    decreases text.len(),
{
    if text.len() > 0 {
        lemma_spaceless_nothing(text.drop_last());
        assert(!is_ascii_space(text[text.len() - 1]));
        assert(text.drop_last().push(text.last()) =~= text);
    }
}

proof fn lemma_without_after(left: Seq<char>, rest: Seq<char>, needle: Seq<char>)
    requires
        needle.len() > 0,
        needle[0] == ':',
        every(left, |character: char| character != ':'),
    ensures
        without(left + rest, needle) == left + without(rest, needle),
    decreases left.len(),
{
    if left.len() == 0 {
        assert(left + rest =~= rest);
        assert(left + without(rest, needle) =~= without(rest, needle));
    } else {
        let text = left + rest;
        if occurs_at(text, needle, 0) {
            assert(text.subrange(0, needle.len() as int)[0] == text[0]);
        }
        assert(left[0] != ':');
        assert(text.skip(1) =~= left.skip(1) + rest);
        lemma_without_after(left.skip(1), rest, needle);
        assert(seq![text[0]] + (left.skip(1) + without(rest, needle)) =~= left + without(
            rest,
            needle,
        ));
    }
}

proof fn lemma_without_one_cast(text: Seq<char>, needle: Seq<char>)
    requires
        text.len() >= 2,
        text[0] == ':',
        text[1] == ':',
        every(text.skip(2), |character: char| character != ':'),
        needle.len() >= 2,
        needle[0] == ':',
        needle[1] == ':',
    ensures
        without(text, needle) == if occurs_at(text, needle, 0) {
            text.skip(needle.len() as int)
        } else {
            text
        },
{
    let rest = text.skip(2);
    if occurs_at(text, needle, 0) {
        let after = text.skip(needle.len() as int);
        assert forall|i: int| 0 <= i < after.len() implies (#[trigger] after[i]) != ':' by {
            assert(after[i] == rest[i + needle.len() - 2]);
        }
        lemma_without_nothing(after, needle);
    } else {
        let second = text.skip(1);
        if occurs_at(second, needle, 0) {
            assert(second.subrange(0, needle.len() as int)[1] == second[1]);
            assert(second[1] == rest[0]);
        }
        assert(second.skip(1) =~= rest);
        lemma_without_nothing(rest, needle);
        assert(seq![second[0]] + rest =~= second);
        assert(without(second, needle) == seq![second[0]] + without(second.skip(1), needle));
        assert(seq![text[0]] + second =~= text);
    }
}

proof fn lemma_first_cast_is_removed(left: Seq<char>, text: Seq<char>, needles: Seq<Seq<char>>)
    requires
        every(left, |character: char| character != ':'),
        text.len() >= 2,
        text[0] == ':',
        text[1] == ':',
        every(text.skip(2), |character: char| character != ':'),
        forall|i: int|
            0 <= i < needles.len() ==> (#[trigger] needles[i]).len() >= 2 && needles[i][0] == ':'
                && needles[i][1] == ':',
    ensures
        (forall|i: int| 0 <= i < needles.len() ==> !occurs_at(text, #[trigger] needles[i], 0))
            ==> without_all(left + text, needles) == left + text,
        forall|k: int|
            0 <= k < needles.len() && occurs_at(text, #[trigger] needles[k], 0) && (forall|i: int|
                0 <= i < k ==> !occurs_at(text, #[trigger] needles[i], 0)) ==> without_all(
                left + text,
                needles,
            ) == left + text.skip(needles[k].len() as int),
    decreases needles.len(),
{
    if needles.len() > 0 {
        let before = needles.drop_last();
        let last = needles.last();
        assert(last == needles[needles.len() - 1]);
        assert forall|i: int| 0 <= i < before.len() implies (#[trigger] before[i]).len() >= 2
            && before[i][0] == ':' && before[i][1] == ':' by {
            assert(before[i] == needles[i]);
        }
        lemma_first_cast_is_removed(left, text, before);
        lemma_without_after(left, text, last);
        lemma_without_one_cast(text, last);
        if forall|i: int| 0 <= i < before.len() ==> !occurs_at(text, #[trigger] needles[i], 0) {
            assert forall|i: int| 0 <= i < before.len() implies !occurs_at(
                text,
                #[trigger] before[i],
                0,
            ) by {
                assert(before[i] == needles[i]);
            }
        }
        assert forall|k: int|
            0 <= k < needles.len() && occurs_at(text, #[trigger] needles[k], 0) && (forall|i: int|
                0 <= i < k ==> !occurs_at(text, #[trigger] needles[i], 0)) implies without_all(
            left + text,
            needles,
        ) == left + text.skip(needles[k].len() as int) by {
            if k < before.len() {
                assert(before[k] == needles[k]);
                assert forall|i: int| 0 <= i < k implies !occurs_at(
                    text,
                    #[trigger] before[i],
                    0,
                ) by {
                    assert(before[i] == needles[i]);
                }
                let after = left + text.skip(needles[k].len() as int);
                assert forall|i: int| 0 <= i < after.len() implies (#[trigger] after[i]) != ':' by {
                    if i < left.len() {
                        assert(after[i] == left[i]);
                    } else {
                        assert(after[i] == text.skip(2)[i - left.len() + needles[k].len() - 2]);
                    }
                }
                lemma_without_nothing(after, last);
            }
        }
    }
}

proof fn lemma_casts_are_told_apart(t: Seq<char>, j: int, k: int)
    requires
        0 <= j < k < 12,
        occurs_at(t, rendered_casts()[k], 0),
        t.len() == rendered_casts()[k].len() || t[rendered_casts()[k].len() as int] != '[',
    ensures
        !occurs_at(t, rendered_casts()[j], 0),
{
    let casts = rendered_casts();
    reveal_strlit("::character varying[]");
    reveal_strlit("::character varying");
    reveal_strlit("::timestamp with time zone");
    reveal_strlit("::timestamp without time zone");
    reveal_strlit("::double precision");
    reveal_strlit("::numeric");
    reveal_strlit("::bigint");
    reveal_strlit("::integer");
    reveal_strlit("::smallint");
    reveal_strlit("::boolean");
    reveal_strlit("::text[]");
    reveal_strlit("::text");
    assert(casts[0] == "::character varying[]"@ && casts[0].len() == 21);
    assert(casts[1] == "::character varying"@ && casts[1].len() == 19);
    assert(casts[2] == "::timestamp with time zone"@ && casts[2].len() == 26);
    assert(casts[3] == "::timestamp without time zone"@ && casts[3].len() == 29);
    assert(casts[4] == "::double precision"@ && casts[4].len() == 18);
    assert(casts[5] == "::numeric"@ && casts[5].len() == 9);
    assert(casts[6] == "::bigint"@ && casts[6].len() == 8);
    assert(casts[7] == "::integer"@ && casts[7].len() == 9);
    assert(casts[8] == "::smallint"@ && casts[8].len() == 10);
    assert(casts[9] == "::boolean"@ && casts[9].len() == 9);
    assert(casts[10] == "::text[]"@ && casts[10].len() == 8);
    assert(casts[11] == "::text"@ && casts[11].len() == 6);
    assert("::character varying[]"@[2] == 'c' && "::character varying[]"@[3] == 'h' && "::character varying[]"@[6] == 'a' && "::character varying[]"@[16] == 'i' && "::character varying[]"@[19] == '[');
    assert("::character varying"@[2] == 'c' && "::character varying"@[3] == 'h' && "::character varying"@[6] == 'a' && "::character varying"@[16] == 'i');
    assert("::timestamp with time zone"@[2] == 't' && "::timestamp with time zone"@[3] == 'i' && "::timestamp with time zone"@[6] == 's' && "::timestamp with time zone"@[16] == ' ' && "::timestamp with time zone"@[19] == 'm');
    assert("::timestamp without time zone"@[2] == 't' && "::timestamp without time zone"@[3] == 'i' && "::timestamp without time zone"@[6] == 's' && "::timestamp without time zone"@[16] == 'o' && "::timestamp without time zone"@[19] == ' ');
    assert("::double precision"@[2] == 'd' && "::double precision"@[3] == 'o' && "::double precision"@[6] == 'l' && "::double precision"@[16] == 'o');
    assert("::numeric"@[2] == 'n' && "::numeric"@[3] == 'u' && "::numeric"@[6] == 'r');
    assert("::bigint"@[2] == 'b' && "::bigint"@[3] == 'i' && "::bigint"@[6] == 'n');
    assert("::integer"@[2] == 'i' && "::integer"@[3] == 'n' && "::integer"@[6] == 'g');
    assert("::smallint"@[2] == 's' && "::smallint"@[3] == 'm' && "::smallint"@[6] == 'l');
    assert("::boolean"@[2] == 'b' && "::boolean"@[3] == 'o' && "::boolean"@[6] == 'e');
    assert("::text[]"@[2] == 't' && "::text[]"@[3] == 'e' && "::text[]"@[6] == '[');
    assert("::text"@[2] == 't' && "::text"@[3] == 'e');
    assert(2 < casts[k].len() ==> t[2] == t.subrange(0, casts[k].len() as int)[2]);
    assert(2 < casts[j].len() && casts[j].len() <= t.len() ==> t[2] == t.subrange(0, casts[j].len() as int)[2]);
    assert(3 < casts[k].len() ==> t[3] == t.subrange(0, casts[k].len() as int)[3]);
    assert(3 < casts[j].len() && casts[j].len() <= t.len() ==> t[3] == t.subrange(0, casts[j].len() as int)[3]);
    assert(6 < casts[k].len() ==> t[6] == t.subrange(0, casts[k].len() as int)[6]);
    assert(6 < casts[j].len() && casts[j].len() <= t.len() ==> t[6] == t.subrange(0, casts[j].len() as int)[6]);
    assert(16 < casts[k].len() ==> t[16] == t.subrange(0, casts[k].len() as int)[16]);
    assert(16 < casts[j].len() && casts[j].len() <= t.len() ==> t[16] == t.subrange(0, casts[j].len() as int)[16]);
    assert(19 < casts[k].len() ==> t[19] == t.subrange(0, casts[k].len() as int)[19]);
    assert(19 < casts[j].len() && casts[j].len() <= t.len() ==> t[19] == t.subrange(0, casts[j].len() as int)[19]);
    if k == 0 {
        assert(false);
    } else if k == 1 {
        assert(j == 0);
    } else if k == 2 {
        assert(j == 0 || j == 1);
    } else if k == 3 {
        assert(j == 0 || j == 1 || j == 2);
    } else if k == 4 {
        assert(j == 0 || j == 1 || j == 2 || j == 3);
    } else if k == 5 {
        assert(j == 0 || j == 1 || j == 2 || j == 3 || j == 4);
    } else if k == 6 {
        assert(j == 0 || j == 1 || j == 2 || j == 3 || j == 4 || j == 5);
    } else if k == 7 {
        assert(j == 0 || j == 1 || j == 2 || j == 3 || j == 4 || j == 5 || j == 6);
    } else if k == 8 {
        assert(j == 0 || j == 1 || j == 2 || j == 3 || j == 4 || j == 5 || j == 6 || j == 7);
    } else if k == 9 {
        assert(j == 0 || j == 1 || j == 2 || j == 3 || j == 4 || j == 5 || j == 6 || j == 7 || j == 8);
    } else if k == 10 {
        assert(j == 0 || j == 1 || j == 2 || j == 3 || j == 4 || j == 5 || j == 6 || j == 7 || j == 8 || j == 9);
    } else if k == 11 {
        assert(j == 0 || j == 1 || j == 2 || j == 3 || j == 4 || j == 5 || j == 6 || j == 7 || j == 8 || j == 9 || j == 10);
    }
}

/// Whether a type is one whose cast PostgreSQL writes into rendered expressions.
pub open spec fn is_cast_kind(kind: Seq<char>) -> bool {
    ||| kind == "character varying[]"@
    ||| kind == "character varying"@
    ||| kind == "timestamp with time zone"@
    ||| kind == "timestamp without time zone"@
    ||| kind == "double precision"@
    ||| kind == "numeric"@
    ||| kind == "bigint"@
    ||| kind == "integer"@
    ||| kind == "smallint"@
    ||| kind == "boolean"@
    ||| kind == "text[]"@
    ||| kind == "text"@
}

proof fn lemma_casts_hold_colons()
    ensures
        rendered_casts().len() == 12,
        forall|i: int|
            0 <= i < 12 ==> (#[trigger] rendered_casts()[i]).len() >= 2 && rendered_casts()[i][0]
                == ':' && rendered_casts()[i][1] == ':',
{
    let casts = rendered_casts();
    reveal_strlit("::character varying[]");
    reveal_strlit("::character varying");
    reveal_strlit("::timestamp with time zone");
    reveal_strlit("::timestamp without time zone");
    reveal_strlit("::double precision");
    reveal_strlit("::numeric");
    reveal_strlit("::bigint");
    reveal_strlit("::integer");
    reveal_strlit("::smallint");
    reveal_strlit("::boolean");
    reveal_strlit("::text[]");
    reveal_strlit("::text");
    assert(casts[0] == "::character varying[]"@ && casts[0].len() == 21);
    assert(casts[1] == "::character varying"@ && casts[1].len() == 19);
    assert(casts[2] == "::timestamp with time zone"@ && casts[2].len() == 26);
    assert(casts[3] == "::timestamp without time zone"@ && casts[3].len() == 29);
    assert(casts[4] == "::double precision"@ && casts[4].len() == 18);
    assert(casts[5] == "::numeric"@ && casts[5].len() == 9);
    assert(casts[6] == "::bigint"@ && casts[6].len() == 8);
    assert(casts[7] == "::integer"@ && casts[7].len() == 9);
    assert(casts[8] == "::smallint"@ && casts[8].len() == 10);
    assert(casts[9] == "::boolean"@ && casts[9].len() == 9);
    assert(casts[10] == "::text[]"@ && casts[10].len() == 8);
    assert(casts[11] == "::text"@ && casts[11].len() == 6);
}

proof fn lemma_kind_of(k: int) -> (kind: Seq<char>)
    requires
        0 <= k < 12,
    ensures
        is_cast_kind(kind),
        rendered_casts()[k] == "::"@ + kind,
{
    reveal_strlit("::");
    reveal_strlit("::character varying[]");
    reveal_strlit("::character varying");
    reveal_strlit("::timestamp with time zone");
    reveal_strlit("::timestamp without time zone");
    reveal_strlit("::double precision");
    reveal_strlit("::numeric");
    reveal_strlit("::bigint");
    reveal_strlit("::integer");
    reveal_strlit("::smallint");
    reveal_strlit("::boolean");
    reveal_strlit("::text[]");
    reveal_strlit("::text");
    reveal_strlit("character varying[]");
    reveal_strlit("character varying");
    reveal_strlit("timestamp with time zone");
    reveal_strlit("timestamp without time zone");
    reveal_strlit("double precision");
    reveal_strlit("numeric");
    reveal_strlit("bigint");
    reveal_strlit("integer");
    reveal_strlit("smallint");
    reveal_strlit("boolean");
    reveal_strlit("text[]");
    reveal_strlit("text");
    assert("::"@ + "character varying[]"@ =~= "::character varying[]"@);
    assert("::"@ + "character varying"@ =~= "::character varying"@);
    assert("::"@ + "timestamp with time zone"@ =~= "::timestamp with time zone"@);
    assert("::"@ + "timestamp without time zone"@ =~= "::timestamp without time zone"@);
    assert("::"@ + "double precision"@ =~= "::double precision"@);
    assert("::"@ + "numeric"@ =~= "::numeric"@);
    assert("::"@ + "bigint"@ =~= "::bigint"@);
    assert("::"@ + "integer"@ =~= "::integer"@);
    assert("::"@ + "smallint"@ =~= "::smallint"@);
    assert("::"@ + "boolean"@ =~= "::boolean"@);
    assert("::"@ + "text[]"@ =~= "::text[]"@);
    assert("::"@ + "text"@ =~= "::text"@);
    if k == 0 {
        "character varying[]"@
    } else if k == 1 {
        "character varying"@
    } else if k == 2 {
        "timestamp with time zone"@
    } else if k == 3 {
        "timestamp without time zone"@
    } else if k == 4 {
        "double precision"@
    } else if k == 5 {
        "numeric"@
    } else if k == 6 {
        "bigint"@
    } else if k == 7 {
        "integer"@
    } else if k == 8 {
        "smallint"@
    } else if k == 9 {
        "boolean"@
    } else if k == 10 {
        "text[]"@
    } else {
        "text"@
    }
}

proof fn lemma_cast_of(kind: Seq<char>) -> (k: int)
    requires
        is_cast_kind(kind),
    ensures
        0 <= k < 12,
        rendered_casts()[k] == "::"@ + kind,
{
    reveal_strlit("::");
    reveal_strlit("::character varying[]");
    reveal_strlit("::character varying");
    reveal_strlit("::timestamp with time zone");
    reveal_strlit("::timestamp without time zone");
    reveal_strlit("::double precision");
    reveal_strlit("::numeric");
    reveal_strlit("::bigint");
    reveal_strlit("::integer");
    reveal_strlit("::smallint");
    reveal_strlit("::boolean");
    reveal_strlit("::text[]");
    reveal_strlit("::text");
    reveal_strlit("character varying[]");
    reveal_strlit("character varying");
    reveal_strlit("timestamp with time zone");
    reveal_strlit("timestamp without time zone");
    reveal_strlit("double precision");
    reveal_strlit("numeric");
    reveal_strlit("bigint");
    reveal_strlit("integer");
    reveal_strlit("smallint");
    reveal_strlit("boolean");
    reveal_strlit("text[]");
    reveal_strlit("text");
    assert("::"@ + "character varying[]"@ =~= "::character varying[]"@);
    assert("::"@ + "character varying"@ =~= "::character varying"@);
    assert("::"@ + "timestamp with time zone"@ =~= "::timestamp with time zone"@);
    assert("::"@ + "timestamp without time zone"@ =~= "::timestamp without time zone"@);
    assert("::"@ + "double precision"@ =~= "::double precision"@);
    assert("::"@ + "numeric"@ =~= "::numeric"@);
    assert("::"@ + "bigint"@ =~= "::bigint"@);
    assert("::"@ + "integer"@ =~= "::integer"@);
    assert("::"@ + "smallint"@ =~= "::smallint"@);
    assert("::"@ + "boolean"@ =~= "::boolean"@);
    assert("::"@ + "text[]"@ =~= "::text[]"@);
    assert("::"@ + "text"@ =~= "::text"@);
    if kind == "character varying[]"@ {
        0
    } else if kind == "character varying"@ {
        1
    } else if kind == "timestamp with time zone"@ {
        2
    } else if kind == "timestamp without time zone"@ {
        3
    } else if kind == "double precision"@ {
        4
    } else if kind == "numeric"@ {
        5
    } else if kind == "bigint"@ {
        6
    } else if kind == "integer"@ {
        7
    } else if kind == "smallint"@ {
        8
    } else if kind == "boolean"@ {
        9
    } else if kind == "text[]"@ {
        10
    } else {
        11
    }
}

/// A cast to one of the twelve types that PostgreSQL writes into rendered expressions
/// leaves no trace: the normal form of a text that holds one is what stands before
/// and after it, without white space.
pub proof fn rendered_casts_leave_no_trace(
    value: &str,
    text: String,
    left: Seq<char>,
    kind: Seq<char>,
    right: Seq<char>,
)
    requires
        call_ensures(normalize_sql, (value,), text),
        value@.map_values(|character: char| ascii_lowercase(character)) == left + ("::"@ + kind
            + right),
        is_cast_kind(kind),
        every(left, |character: char| character != ':'),
        every(right, |character: char| character != ':'),
        right.len() == 0 || right[0] != '[',
    ensures
        text@ == (left + right).filter(|character: char| !is_ascii_space(character)),
{
    let casts = rendered_casts();
    let rest = "::"@ + kind + right;
    let k = lemma_cast_of(kind);
    reveal_strlit("::");
    lemma_casts_hold_colons();
    assert(rest.subrange(0, casts[k].len() as int) =~= casts[k]);
    assert(rest.skip(casts[k].len() as int) =~= right);
    assert(rest.skip(2) =~= kind + right);
    lemma_kinds_hold_no_colon(kind);
    assert forall|i: int| 0 <= i < rest.skip(2).len() implies (#[trigger] rest.skip(2)[i]) != ':' by {
        if i < kind.len() {
            assert(rest.skip(2)[i] == kind[i]);
        } else {
            assert(rest.skip(2)[i] == right[i - kind.len()]);
        }
    }
    assert forall|j: int| 0 <= j < k implies !occurs_at(rest, #[trigger] casts[j], 0) by {
        lemma_casts_are_told_apart(rest, j, k);
    }
    lemma_first_cast_is_removed(left, rest, casts);
    assert(lowered(value@) =~= left + rest);
    lemma_spaceless_filters(left + right);
}

/// No other cast is left out: a text with one cast, to a type that begins with none of
/// the twelve, loses nothing but white space and the case of its letters.
pub proof fn other_casts_are_kept(
    value: &str,
    text: String,
    left: Seq<char>,
    rest: Seq<char>,
)
    requires
        call_ensures(normalize_sql, (value,), text),
        value@.map_values(|character: char| ascii_lowercase(character)) == left + ("::"@ + rest),
        every(left, |character: char| character != ':'),
        every(rest, |character: char| character != ':'),
        forall|kind: Seq<char>| #[trigger] is_cast_kind(kind) ==> !kind.is_prefix_of(rest),
    ensures
        text@ == (left + ("::"@ + rest)).filter(|character: char| !is_ascii_space(character)),
{
    let casts = rendered_casts();
    let cast = "::"@ + rest;
    reveal_strlit("::");
    lemma_casts_hold_colons();
    assert(cast.skip(2) =~= rest);
    assert forall|k: int| 0 <= k < casts.len() implies !occurs_at(cast, #[trigger] casts[k], 0) by {
        let kind = lemma_kind_of(k);
        if occurs_at(cast, casts[k], 0) {
            assert forall|i: int| 0 <= i < kind.len() implies (#[trigger] rest.subrange(
                0,
                kind.len() as int,
            )[i]) == kind[i] by {
                assert(casts[k][i + 2] == kind[i]);
                assert(cast.subrange(0, casts[k].len() as int)[i + 2] == rest[i]);
            }
            assert(kind =~= rest.subrange(0, kind.len() as int));
            assert(kind.is_prefix_of(rest));
        }
    }
    lemma_first_cast_is_removed(left, cast, casts);
    assert(lowered(value@) =~= left + cast);
    lemma_spaceless_filters(left + cast);
}

proof fn lemma_kinds_hold_no_colon(kind: Seq<char>)
    requires
        is_cast_kind(kind),
    ensures
        every(kind, |character: char| character != ':'),
{
    reveal_strlit("character varying[]");
    assert("character varying[]"@ =~= seq!['c', 'h', 'a', 'r', 'a', 'c', 't', 'e', 'r', ' ', 'v', 'a', 'r', 'y', 'i', 'n', 'g', '[', ']']);
    reveal_strlit("character varying");
    assert("character varying"@ =~= seq!['c', 'h', 'a', 'r', 'a', 'c', 't', 'e', 'r', ' ', 'v', 'a', 'r', 'y', 'i', 'n', 'g']);
    reveal_strlit("timestamp with time zone");
    assert("timestamp with time zone"@ =~= seq!['t', 'i', 'm', 'e', 's', 't', 'a', 'm', 'p', ' ', 'w', 'i', 't', 'h', ' ', 't', 'i', 'm', 'e', ' ', 'z', 'o', 'n', 'e']);
    reveal_strlit("timestamp without time zone");
    assert("timestamp without time zone"@ =~= seq!['t', 'i', 'm', 'e', 's', 't', 'a', 'm', 'p', ' ', 'w', 'i', 't', 'h', 'o', 'u', 't', ' ', 't', 'i', 'm', 'e', ' ', 'z', 'o', 'n', 'e']);
    reveal_strlit("double precision");
    assert("double precision"@ =~= seq!['d', 'o', 'u', 'b', 'l', 'e', ' ', 'p', 'r', 'e', 'c', 'i', 's', 'i', 'o', 'n']);
    reveal_strlit("numeric");
    assert("numeric"@ =~= seq!['n', 'u', 'm', 'e', 'r', 'i', 'c']);
    reveal_strlit("bigint");
    assert("bigint"@ =~= seq!['b', 'i', 'g', 'i', 'n', 't']);
    reveal_strlit("integer");
    assert("integer"@ =~= seq!['i', 'n', 't', 'e', 'g', 'e', 'r']);
    reveal_strlit("smallint");
    assert("smallint"@ =~= seq!['s', 'm', 'a', 'l', 'l', 'i', 'n', 't']);
    reveal_strlit("boolean");
    assert("boolean"@ =~= seq!['b', 'o', 'o', 'l', 'e', 'a', 'n']);
    reveal_strlit("text[]");
    assert("text[]"@ =~= seq!['t', 'e', 'x', 't', '[', ']']);
    reveal_strlit("text");
    assert("text"@ =~= seq!['t', 'e', 'x', 't']);
}

} // verus!
