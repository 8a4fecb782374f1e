//! Text helpers: comparison, concatenation, decimal rendering and searching.
//!
//! Texts are modelled as sequences of characters. Everything here is exact:
//! a helper's contract names the one sequence that it produces.

use vstd::prelude::*;

verus! {

/// `String::push` of std: appends one character at the end of the text.
pub assume_specification[ String::push ](text: &mut String, character: char)
    ensures
        final(text)@ == old(text)@.push(character),
;

/// What `{value:?}` renders for a text: the quoted and escaped form.
pub uninterp spec fn quoted_text(value: Seq<char>) -> Seq<char>;

/// `format!("{value:?}")` of std on a text. Nothing is claimed of the escaping
/// but that it depends on the text alone.
#[verifier::external_body]
pub(crate) fn quoted(value: &str) -> (text: String)
    ensures
        text@ == quoted_text(value@),
{
    format!("{value:?}")
}

/// Whether two texts hold the same characters.
pub fn same_text(left: &str, right: &str) -> (same: bool)
    ensures
        same == (left@ == right@),
{
    left.to_owned() == right.to_owned()
}

/// The view of an optional text.
pub open spec fn optional_text(value: Option<String>) -> Option<Seq<char>> {
    match value {
        Some(text) => Some(text@),
        None => None,
    }
}

/// The view of optional bytes.
pub open spec fn optional_bytes(value: Option<Vec<u8>>) -> Option<Seq<u8>> {
    match value {
        Some(bytes) => Some(bytes@),
        None => None,
    }
}

/// The texts of a list, by their characters.
pub open spec fn texts(list: Seq<String>) -> Seq<Seq<char>> {
    list.map_values(|text: String| text@)
}

/// The texts of a list of literals, by their characters.
pub open spec fn literals(list: Seq<&'static str>) -> Seq<Seq<char>> {
    list.map_values(|text: &'static str| text@)
}

/// Whether two optional texts are both absent, or both present and equal.
pub fn same_optional_text(left: &Option<String>, right: &Option<String>) -> (same: bool)
    ensures
        same == (optional_text(*left) == optional_text(*right)),
{
    match (left, right) {
        (Some(left), Some(right)) => same_text(left.as_str(), right.as_str()),
        (None, None) => true,
        _ => false,
    }
}

/// Whether an optional text is present and equal to `expected`.
pub fn is_text(value: &Option<String>, expected: &str) -> (same: bool)
    ensures
        same == (optional_text(*value) == Some(expected@)),
{
    match value {
        Some(text) => same_text(text.as_str(), expected),
        None => false,
    }
}

/// Whether two byte strings are equal.
pub fn same_bytes(left: &[u8], right: &[u8]) -> (same: bool)
    ensures
        same == (left@ == right@),
{
    if left.len() != right.len() {
        return false;
    }
    let mut index: usize = 0;
    while index < left.len()
        invariant
            left@.len() == right@.len(),
            index <= left@.len(),
            forall|i: int| 0 <= i < index ==> left@[i] == right@[i],
        decreases left@.len() - index,
    {
        if left[index] != right[index] {
            return false;
        }
        index = index + 1;
    }
    assert(left@ =~= right@);
    true
}

/// Whether two optional byte strings are both absent, or both present and equal.
pub fn same_optional_bytes(left: &Option<Vec<u8>>, right: &Option<Vec<u8>>) -> (same: bool)
    ensures
        same == (optional_bytes(*left) == optional_bytes(*right)),
{
    match (left, right) {
        (Some(left), Some(right)) => same_bytes(left.as_slice(), right.as_slice()),
        (None, None) => true,
        _ => false,
    }
}

/// Whether two lists hold the same texts in the same order.
pub fn same_texts(left: &Vec<String>, right: &Vec<&'static str>) -> (same: bool)
    ensures
        same == (texts(left@) == literals(right@)),
{
    let ghost actual = texts(left@);
    let ghost expected = literals(right@);
    if left.len() != right.len() {
        assert(actual.len() != expected.len());
        return false;
    }
    let mut index: usize = 0;
    while index < left.len()
        invariant
            left@.len() == right@.len(),
            actual == texts(left@),
            expected == literals(right@),
            index <= left@.len(),
            forall|i: int| 0 <= i < index ==> actual[i] == expected[i],
        decreases left@.len() - index,
    {
        if !same_text(left[index].as_str(), right[index]) {
            assert(actual[index as int] != expected[index as int]);
            return false;
        }
        index = index + 1;
    }
    assert(actual =~= expected);
    true
}

/// Whether a list of literals holds `name`.
pub fn is_listed(name: &str, list: &[&str]) -> (listed: bool)
    ensures
        listed == exists|i: int| 0 <= i < list@.len() && (#[trigger] list@[i])@ == name@,
{
    let mut index: usize = 0;
    while index < list.len()
        invariant
            index <= list@.len(),
            forall|i: int| 0 <= i < index ==> (#[trigger] list@[i])@ != name@,
        decreases list@.len() - index,
    {
        if same_text(list[index], name) {
            return true;
        }
        index = index + 1;
    }
    false
}

/// The character of one decimal digit.
pub open spec fn digit(value: nat) -> char {
    (48 + value) as char
}

/// The decimal rendering of a number, without leading zeros.
pub open spec fn decimal_text(value: nat) -> Seq<char>
    decreases value,
{
    if value < 10 {
        seq![digit(value)]
    } else {
        decimal_text(value / 10).push(digit(value % 10))
    }
}

/// Renders a number in decimal.
pub fn decimal(value: u64) -> (text: String)
    ensures
        text@ == decimal_text(value as nat),
    decreases value,
{
    let mut text = if value < 10 { String::new() } else { decimal(value / 10) };
    let last: u8 = 48 + (value % 10) as u8;
    text.push(last as char);
    proof {
        assert(last as char == digit((value % 10) as nat));
        if value < 10 {
            assert(text@ =~= seq![digit(value as nat)]);
        }
    }
    text
}

/// A whole number in decimal notation, with a sign if it is negative.
pub open spec fn signed_text(value: int) -> Seq<char> {
    if value < 0 {
        "-"@ + decimal_text((-value) as nat)
    } else {
        decimal_text(value as nat)
    }
}

/// Writes a whole number in decimal notation.
pub fn signed_decimal(value: i64) -> (text: String)
    ensures
        text@ == signed_text(value as int),
{
    if value == i64::MIN {
        "-".to_owned().concat(decimal(9_223_372_036_854_775_808).as_str())
    } else if value < 0 {
        "-".to_owned().concat(decimal((-value) as u64).as_str())
    } else {
        decimal(value as u64)
    }
}

/// Whether a character is a decimal digit.
pub open spec fn is_digit(character: char) -> bool {
    '0' <= character && character <= '9'
}

/// The number that decimal digits spell.
pub open spec fn digits_value(digits: Seq<char>) -> nat
    decreases digits.len(),
{
    if digits.len() == 0 {
        0
    } else {
        (10 * digits_value(digits.drop_last()) + (digits.last() as int - 48)) as nat
    }
}

/// The digits of a number after its optional sign.
pub open spec fn unsigned_part(text: Seq<char>) -> Seq<char> {
    if text.len() > 0 && (text[0] == '+' || text[0] == '-') {
        text.skip(1)
    } else {
        text
    }
}

/// The 32-bit signed integer that a text spells, if it spells one: an optional
/// sign, then at least one digit and nothing else.
pub open spec fn parsed_i32(text: Seq<char>) -> Option<int> {
    let digits = unsigned_part(text);
    let magnitude = digits_value(digits) as int;
    let value = if text.len() > 0 && text[0] == '-' {
        -magnitude
    } else {
        magnitude
    };
    if digits.len() > 0 && (forall|i: int| 0 <= i < digits.len() ==> is_digit(#[trigger] digits[i]))
        && i32::MIN <= value <= i32::MAX {
        Some(value)
    } else {
        None
    }
}

proof fn lemma_digits_value_grows(digits: Seq<char>, upto: int)
    requires
        0 <= upto <= digits.len(),
        forall|i: int| 0 <= i < digits.len() ==> is_digit(#[trigger] digits[i]),
    ensures
        digits_value(digits.take(upto)) <= digits_value(digits),
    decreases digits.len() - upto,
{
    if upto == digits.len() {
        assert(digits.take(upto) =~= digits);
    } else {
        let next = digits.take(upto + 1);
        assert(next.drop_last() =~= digits.take(upto));
        assert(is_digit(digits[upto]));
        lemma_digits_value_grows(digits, upto + 1);
    }
}

/// Reads a 32-bit signed integer.
pub fn parse_i32(text: &str) -> (number: Option<i32>)
    ensures
        match number {
            Some(value) => parsed_i32(text@) == Some(value as int),
            None => parsed_i32(text@) is None,
        },
{
    let list = characters(text);
    let negative = list.len() > 0 && list[0] == '-';
    let start: usize = if list.len() > 0 && (list[0] == '+' || list[0] == '-') {
        1
    } else {
        0
    };
    let ghost digits = unsigned_part(text@);
    assert(digits =~= list@.skip(start as int));
    if start == list.len() {
        return None;
    }
    let mut index: usize = start;
    while index < list.len()
        invariant
            start <= index <= list@.len(),
            digits =~= list@.skip(start as int),
            digits == unsigned_part(text@),
            forall|i: int| 0 <= i < index - start ==> is_digit(#[trigger] digits[i]),
        decreases list@.len() - index,
    {
        let character = list[index];
        assert(character == digits[index - start]);
        if !('0' <= character && character <= '9') {
            return None;
        }
        index = index + 1;
    }
    let mut value: i64 = 0;
    index = start;
    while index < list.len()
        invariant
            start <= index <= list@.len(),
            digits =~= list@.skip(start as int),
            forall|i: int| 0 <= i < digits.len() ==> is_digit(#[trigger] digits[i]),
            value == digits_value(digits.take(index - start)),
            0 <= value <= 2_147_483_648,
            digits == unsigned_part(text@),
            negative == (text@.len() > 0 && text@[0] == '-'),
        decreases list@.len() - index,
    {
        let character = list[index];
        assert(character == digits[index - start]);
        assert(is_digit(digits[index - start]));
        assert(digits.take(index - start + 1).drop_last() =~= digits.take(index - start));
        let digit: i64 = (character as u32 - 48) as i64;
        value = 10 * value + digit;
        index = index + 1;
        if value > 2_147_483_648 {
            proof {
                lemma_digits_value_grows(digits, index - start);
            }
            return None;
        }
    }
    assert(digits.take(digits.len() as int) =~= digits);
    if negative {
        Some((-value) as i32)
    } else if value <= 2_147_483_647 {
        Some(value as i32)
    } else {
        None
    }
}

/// The ASCII lower case of a character; other characters are unchanged.
pub open spec fn ascii_lowercase(character: char) -> char {
    if 'A' <= character && character <= 'Z' {
        (character as u8 + 32) as char
    } else {
        character
    }
}

/// Maps one character to its ASCII lower case.
pub fn to_ascii_lowercase(character: char) -> (lower: char)
    ensures
        lower == ascii_lowercase(character),
{
    if 'A' <= character && character <= 'Z' {
        let code: u8 = character as u8;
        (code + 32) as char
    } else {
        character
    }
}

/// Whether a character is ASCII white space: space, tab, line feed, form feed
/// or carriage return.
pub open spec fn is_ascii_space(character: char) -> bool {
    character == ' ' || character == '\t' || character == '\n' || character == '\x0C'
        || character == '\r'
}

/// Tests for ASCII white space.
pub fn ascii_space(character: char) -> (space: bool)
    ensures
        space == is_ascii_space(character),
{
    character == ' ' || character == '\t' || character == '\n' || character == '\x0C'
        || character == '\r'
}

/// The characters of a text as a vector.
pub fn characters(text: &str) -> (list: Vec<char>)
    ensures
        list@ == text@,
{
    let mut list: Vec<char> = Vec::new();
    for character in iter: text.chars()
        invariant
            list@.len() == iter.index(),
            iter.seq() == text@,
            forall|i: int| 0 <= i < list@.len() ==> list@[i] == text@[i],
    {
        list.push(character);
    }
    assert(list@ =~= text@);
    list
}

/// Whether two lists hold the same characters.
pub fn same_characters(left: &Vec<char>, right: &Vec<char>) -> (same: bool)
    ensures
        same == (left@ == right@),
{
    if left.len() != right.len() {
        return false;
    }
    let mut index: usize = 0;
    while index < left.len()
        invariant
            left@.len() == right@.len(),
            index <= left@.len(),
            forall|i: int| 0 <= i < index ==> left@[i] == right@[i],
        decreases left@.len() - index,
    {
        if left[index] != right[index] {
            return false;
        }
        index = index + 1;
    }
    assert(left@ =~= right@);
    true
}

/// The text that a range of characters spells.
pub fn spelled(list: &[char], start: usize, end: usize) -> (text: String)
    requires
        start <= end <= list@.len(),
    ensures
        text@ == list@.subrange(start as int, end as int),
{
    let mut text = String::new();
    let mut index: usize = start;
    while index < end
        invariant
            start <= index <= end <= list@.len(),
            text@ == list@.subrange(start as int, index as int),
        decreases end - index,
    {
        text.push(list[index]);
        index = index + 1;
        assert(text@ =~= list@.subrange(start as int, index as int));
    }
    text
}

/// A text in ASCII lower case.
pub open spec fn lowered(text: Seq<char>) -> Seq<char> {
    text.map_values(|character: char| ascii_lowercase(character))
}

/// Puts characters into ASCII lower case.
pub fn lower(text: &Vec<char>) -> (list: Vec<char>)
    ensures
        list@ == lowered(text@),
{
    let mut list: Vec<char> = Vec::new();
    let mut index: usize = 0;
    while index < text.len()
        invariant
            index <= text@.len(),
            list@.len() == index,
            forall|i: int| 0 <= i < index ==> list@[i] == ascii_lowercase(text@[i]),
        decreases text@.len() - index,
    {
        list.push(to_ascii_lowercase(text[index]));
        index = index + 1;
    }
    assert(list@ =~= lowered(text@));
    list
}

/// Whether `needle` stands in `text` at position `at`.
pub open spec fn occurs_at(text: Seq<char>, needle: Seq<char>, at: int) -> bool {
    0 <= at && at + needle.len() <= text.len() && text.subrange(at, at + needle.len()) == needle
}

/// Tests whether `needle` stands in `text` at position `at`.
pub fn stands_at(text: &[char], needle: &[char], at: usize) -> (found: bool)
    ensures
        found == occurs_at(text@, needle@, at as int),
{
    if at > text.len() || needle.len() > text.len() - at {
        return false;
    }
    let mut index: usize = 0;
    while index < needle.len()
        invariant
            at + needle@.len() <= text@.len() <= usize::MAX,
            index <= needle@.len(),
            forall|i: int| 0 <= i < index ==> text@[at + i] == needle@[i],
        decreases needle@.len() - index,
    {
        if text[at + index] != needle[index] {
            assert(text@.subrange(at as int, at + needle@.len())[index as int] != needle@[index as int]);
            return false;
        }
        index = index + 1;
    }
    assert(text@.subrange(at as int, at + needle@.len()) =~= needle@);
    true
}

/// Whether `at` is the first position of `needle` in `text` from `start` on.
pub open spec fn first_from(text: Seq<char>, needle: Seq<char>, start: int, at: int) -> bool {
    &&& start <= at
    &&& occurs_at(text, needle, at)
    &&& forall|before: int| start <= before < at ==> !occurs_at(text, needle, before)
}

/// The first position of `needle` in `text` from `start` on, if it occurs there.
pub fn find_from(text: &[char], needle: &[char], start: usize) -> (found: Option<usize>)
    requires
        start <= text@.len(),
    ensures
        match found {
            Some(at) => first_from(text@, needle@, start as int, at as int),
            None => forall|at: int| start <= at ==> !occurs_at(text@, needle@, at),
        },
{
    let mut at: usize = start;
    loop
        invariant
            start <= at <= text@.len(),
            forall|before: int| start <= before < at ==> !occurs_at(text@, needle@, before),
        decreases text@.len() - at,
    {
        if stands_at(text, needle, at) {
            return Some(at);
        }
        if at == text.len() {
            return None;
        }
        at = at + 1;
    }
}

/// Every number is written with decimal digits alone, without a leading zero, and
/// the digits spell the number.
pub proof fn decimals_spell_their_number(value: nat)
    ensures
        digits_value(decimal_text(value)) == value,
        decimal_text(value).len() > 0,
        forall|i: int| 0 <= i < decimal_text(value).len() ==> is_digit(#[trigger] decimal_text(value)[i]),
        value > 0 ==> decimal_text(value)[0] != '0',
    decreases value,
{
    reveal_with_fuel(digits_value, 2);
    if value < 10 {
        assert(decimal_text(value).drop_last() =~= Seq::<char>::empty());
        assert(digit(value) as int == 48 + value);
    } else {
        decimals_spell_their_number(value / 10);
        assert(decimal_text(value).drop_last() =~= decimal_text(value / 10));
        assert(digit(value % 10) as int == 48 + value % 10);
    }
}

/// A number that is written out is read back as the same number.
pub proof fn written_numbers_read_back(
    value: i64,
    written: String,
    text: &str,
    number: Option<i32>,
)
    requires
        call_ensures(signed_decimal, (value,), written),
        written@ == text@,
        call_ensures(parse_i32, (text,), number),
    ensures
        i32::MIN <= value <= i32::MAX ==> number == Some(value as i32),
        !(i32::MIN <= value <= i32::MAX) ==> number is None,
{
    reveal_strlit("-");
    if value < 0 {
        decimals_spell_their_number((-value) as nat);
        assert(signed_text(value as int).skip(1) =~= decimal_text((-value) as nat));
    } else {
        decimals_spell_their_number(value as nat);
    }
}

/// A text is read as a number exactly if it holds digits alone, behind at most one
/// sign, and the number fits 32 bits.
pub proof fn only_numbers_are_read(text: &str, number: Option<i32>)
    requires
        call_ensures(parse_i32, (text,), number),
    ensures
        number is Some ==> {
            &&& text@.len() > 0
            &&& text@[0] == '+' || text@[0] == '-' || is_digit(text@[0])
            &&& forall|i: int| 0 < i < text@.len() ==> is_digit(#[trigger] text@[i])
            &&& is_digit(text@.last())
        },
        (text@.len() > 0 && forall|i: int|
            0 <= i < text@.len() ==> is_digit(#[trigger] text@[i])) && digits_value(text@) <= i32::MAX
            ==> number == Some(digits_value(text@) as i32),
{
    if number is Some {
        let digits = unsigned_part(text@);
        assert(is_digit(digits[0]));
        assert(is_digit(digits[digits.len() - 1]));
        if text@[0] == '+' || text@[0] == '-' {
            assert forall|i: int| 0 < i < text@.len() implies is_digit(#[trigger] text@[i]) by {
                assert(text@[i] == digits[i - 1]);
            }
        }
    }
    if text@.len() > 0 && (forall|i: int| 0 <= i < text@.len() ==> is_digit(#[trigger] text@[i])) {
        assert(is_digit(text@[0]));
    }
}

/// Putting a character into lower case moves the capital letters of ASCII to their
/// small ones, and nothing else.
pub proof fn only_ascii_capitals_are_lowered(character: char, lower: char)
    requires
        call_ensures(to_ascii_lowercase, (character,), lower),
    ensures
        65 <= character as int <= 90 ==> lower as int == character as int + 32,
        !(65 <= character as int <= 90) ==> lower == character,
{
}

/// The white space of ASCII is the space, the tab, the line feed, the form feed and
/// the carriage return.
pub proof fn ascii_spaces_are_these(character: char, space: bool)
    requires
        call_ensures(ascii_space, (character,), space),
    ensures
        space <==> (character as int == 32 || character as int == 9 || character as int == 10
            || character as int == 12 || character as int == 13),
{
}

/// A signed number is written as its size, after a minus sign where it is negative.
pub proof fn signed_numbers_show_their_sign(value: i64, text: String)
    requires
        call_ensures(signed_decimal, (value,), text),
    ensures
        value >= 0 ==> text@ == decimal_text(value as nat),
        value < 0 ==> text@ == seq!['-'] + decimal_text((-value) as nat),
{
    reveal_strlit("-");
    assert("-"@ =~= seq!['-']);
}

} // verus!
