//! The tokens of a JSON text.
//!
//! Every text has tokens, whether it is JSON or not: strings with their escapes
//! undone, and a token for every other character that is not white space.

use vstd::prelude::*;

verus! {

/// `char::from_u32` of std: the character with that code, if there is one.
pub assume_specification[ char::from_u32 ](code: u32) -> (character: Option<char>)
    ensures
        match character {
            Some(character) => character as int == code,
            None => 0xd800 <= code <= 0xdfff || code > 0x10ffff,
        },
;

/// A token of a JSON text.
#[derive(Debug)]
pub enum Token {
    /// A string, with its escapes undone.
    Text(String),
    /// The start of an object or an array.
    Open,
    /// The end of an object or an array.
    Close,
    /// The colon between a name and its value.
    Colon,
    /// Another character outside of strings.
    Other,
}

/// The mathematical content of a token.
pub ghost enum TokenView {
    Text(Seq<char>),
    Open,
    Close,
    Colon,
    Other,
}

impl View for Token {
    type V = TokenView;

    open spec fn view(&self) -> TokenView {
        match self {
            Token::Text(text) => TokenView::Text(text@),
            Token::Open => TokenView::Open,
            Token::Close => TokenView::Close,
            Token::Colon => TokenView::Colon,
            Token::Other => TokenView::Other,
        }
    }
}

/// The contents of tokens, in order.
pub open spec fn token_views(list: Seq<Token>) -> Seq<TokenView> {
    list.map_values(|token: Token| token@)
}

/// The value of a hexadecimal digit.
pub open spec fn hex_value(character: char) -> Option<int> {
    let code = character as int;
    if '0' <= character && character <= '9' {
        Some(code - 0x30)
    } else if 'a' <= character && character <= 'f' {
        Some(code - 0x61 + 10)
    } else if 'A' <= character && character <= 'F' {
        Some(code - 0x41 + 10)
    } else {
        None
    }
}

/// The code unit that the first four characters of a text spell.
pub open spec fn code_unit(text: Seq<char>) -> Option<int> {
    if text.len() < 4 {
        None
    } else {
        match (hex_value(text[0]), hex_value(text[1]), hex_value(text[2]), hex_value(text[3])) {
            (Some(first), Some(second), Some(third), Some(fourth)) => Some(
                first * 4096 + second * 256 + third * 16 + fourth,
            ),
            _ => None,
        }
    }
}

/// Whether a character has that code.
pub open spec fn has_code(character: char, code: int) -> bool {
    character as int == code
}

/// The character with a code.
pub open spec fn char_of(code: int) -> char {
    choose|character: char| #[trigger] has_code(character, code)
}

/// What stands for an escape that JSON does not have.
pub const REPLACEMENT: char = '\u{fffd}';

/// The character that an escape at the start of a text stands for, and its length.
/// A character outside of the basic plane takes two escapes.
pub open spec fn escaped(text: Seq<char>) -> (char, int) {
    if text.len() < 2 {
        (REPLACEMENT, 1)
    } else if text[1] == '"' || text[1] == '\\' || text[1] == '/' {
        (text[1], 2)
    } else if text[1] == 'b' {
        ('\u{8}', 2)
    } else if text[1] == 'f' {
        ('\u{c}', 2)
    } else if text[1] == 'n' {
        ('\n', 2)
    } else if text[1] == 'r' {
        ('\r', 2)
    } else if text[1] == 't' {
        ('\t', 2)
    } else if text[1] != 'u' {
        (REPLACEMENT, 2)
    } else {
        match code_unit(text.skip(2)) {
            None => (REPLACEMENT, 2),
            Some(unit) => if unit < 0xd800 || unit > 0xdfff {
                (char_of(unit), 6)
            } else if unit <= 0xdbff && text.len() >= 8 && text[6] == '\\' && text[7] == 'u' {
                match code_unit(text.skip(8)) {
                    Some(low) if 0xdc00 <= low <= 0xdfff => (
                        char_of(0x10000 + (unit - 0xd800) * 0x400 + (low - 0xdc00)),
                        12,
                    ),
                    _ => (REPLACEMENT, 6),
                }
            } else {
                (REPLACEMENT, 6)
            },
        }
    }
}

/// The string that begins after an opening quote, and how far it reaches, its
/// closing quote included. A string without one reaches to the end.
pub open spec fn string_after(text: Seq<char>) -> (Seq<char>, int)
    decreases text.len(),
{
    if text.len() == 0 {
        (Seq::empty(), 0)
    } else if text[0] == '"' {
        (Seq::empty(), 1)
    } else {
        let (character, length) = if text[0] == '\\' {
            escaped(text)
        } else {
            (text[0], 1)
        };
        if 0 < length <= text.len() {
            let rest = string_after(text.skip(length));
            (seq![character] + rest.0, length + rest.1)
        } else {
            (Seq::empty(), 0)
        }
    }
}

/// Whether a character is white space in JSON.
pub open spec fn is_json_space(character: char) -> bool {
    character == ' ' || character == '\n' || character == '\t' || character == '\r'
}

/// The token of a character outside of strings.
pub open spec fn mark(character: char) -> TokenView {
    if character == '{' || character == '[' {
        TokenView::Open
    } else if character == '}' || character == ']' {
        TokenView::Close
    } else if character == ':' {
        TokenView::Colon
    } else {
        TokenView::Other
    }
}

/// The tokens of a text.
pub open spec fn tokens(text: Seq<char>) -> Seq<TokenView>
    decreases text.len(),
{
    if text.len() == 0 {
        Seq::empty()
    } else if text[0] == '"' {
        let string = string_after(text.skip(1));
        if 0 <= string.1 < text.len() {
            seq![TokenView::Text(string.0)] + tokens(text.skip(1 + string.1))
        } else {
            Seq::empty()
        }
    } else if is_json_space(text[0]) {
        tokens(text.skip(1))
    } else {
        seq![mark(text[0])] + tokens(text.skip(1))
    }
}

proof fn lemma_escape_is_within(text: Seq<char>)
    requires
        text.len() > 0,
    ensures
        0 < escaped(text).1 <= text.len(),
{
}

proof fn lemma_string_is_within(text: Seq<char>)
    ensures
        0 <= string_after(text).1 <= text.len(),
    decreases text.len(),
{
    if text.len() > 0 && text[0] != '"' {
        lemma_escape_is_within(text);
        let length = if text[0] == '\\' {
            escaped(text).1
        } else {
            1
        };
        lemma_string_is_within(text.skip(length));
    }
}

proof fn lemma_one_more(before: Seq<TokenView>, token: TokenView, after: Seq<TokenView>)
    ensures
        before + (seq![token] + after) == before.push(token) + after,
{
    assert(before + (seq![token] + after) =~= before.push(token) + after);
}

proof fn lemma_pushed(list: Seq<Token>, token: Token)
    ensures
        token_views(list.push(token)) == token_views(list).push(token@),
{
    assert(token_views(list.push(token)) =~= token_views(list).push(token@));
}

fn hex_digit(character: char) -> (value: Option<u32>)
    ensures
        match value {
            Some(value) => hex_value(character) == Some(value as int) && value < 16,
            None => hex_value(character) is None,
        },
{
    let code: u32 = character as u32;
    if '0' <= character && character <= '9' {
        Some(code - 0x30)
    } else if 'a' <= character && character <= 'f' {
        Some(code - 0x61 + 10)
    } else if 'A' <= character && character <= 'F' {
        Some(code - 0x41 + 10)
    } else {
        None
    }
}

fn unit_at(text: &Vec<char>, at: usize) -> (unit: Option<u32>)
    requires
        at <= text@.len(),
    ensures
        match unit {
            Some(unit) => code_unit(text@.skip(at as int)) == Some(unit as int) && unit <= 0xffff,
            None => code_unit(text@.skip(at as int)) is None,
        },
{
    if text.len() - at < 4 {
        return None;
    }
    match (
        hex_digit(text[at]),
        hex_digit(text[at + 1]),
        hex_digit(text[at + 2]),
        hex_digit(text[at + 3]),
    ) {
        (Some(first), Some(second), Some(third), Some(fourth)) => Some(
            first * 4096 + second * 256 + third * 16 + fourth,
        ),
        _ => None,
    }
}

fn coded(code: u32) -> (character: char)
    requires
        code < 0xd800 || 0xdfff < code <= 0x10ffff,
    ensures
        character == char_of(code as int),
{
    match char::from_u32(code) {
        Some(character) => {
            assert(has_code(character, code as int));
            character
        },
        None => REPLACEMENT,
    }
}

fn escape_at(text: &Vec<char>, at: usize) -> (escape: (char, usize))
    requires
        at < text@.len(),
    ensures
        escape.0 == escaped(text@.skip(at as int)).0,
        escape.1 == escaped(text@.skip(at as int)).1,
        0 < escape.1 <= text@.len() - at,
{
    let ghost rest = text@.skip(at as int);
    proof {
        lemma_escape_is_within(rest);
    }
    if text.len() - at < 2 {
        return (REPLACEMENT, 1);
    }
    let kind = text[at + 1];
    if kind == '"' || kind == '\\' || kind == '/' {
        return (kind, 2);
    }
    if kind == 'b' {
        return ('\u{8}', 2);
    }
    if kind == 'f' {
        return ('\u{c}', 2);
    }
    if kind == 'n' {
        return ('\n', 2);
    }
    if kind == 'r' {
        return ('\r', 2);
    }
    if kind == 't' {
        return ('\t', 2);
    }
    if kind != 'u' {
        return (REPLACEMENT, 2);
    }
    assert(rest.skip(2) =~= text@.skip(at + 2));
    let unit: u32 = match unit_at(text, at + 2) {
        Some(unit) => unit,
        None => return (REPLACEMENT, 2),
    };
    if unit < 0xd800 || unit > 0xdfff {
        return (coded(unit), 6);
    }
    if unit > 0xdbff || text.len() - at < 8 || text[at + 6] != '\\' || text[at + 7] != 'u' {
        return (REPLACEMENT, 6);
    }
    assert(rest.skip(8) =~= text@.skip(at + 8));
    match unit_at(text, at + 8) {
        Some(low) => if 0xdc00 <= low && low <= 0xdfff {
            (coded(0x10000 + (unit - 0xd800) * 0x400 + (low - 0xdc00)), 12)
        } else {
            (REPLACEMENT, 6)
        },
        None => (REPLACEMENT, 6),
    }
}

fn string_at(text: &Vec<char>, start: usize) -> (string: (String, usize))
    requires
        start <= text@.len(),
    ensures
        string.0@ == string_after(text@.skip(start as int)).0,
        string.1 == start + string_after(text@.skip(start as int)).1,
        start <= string.1 <= text@.len(),
{
    let ghost whole = string_after(text@.skip(start as int));
    let mut string = String::new();
    let mut index: usize = start;
    proof {
        lemma_string_is_within(text@.skip(start as int));
        assert(string@ + whole.0 =~= whole.0);
    }
    while index < text.len()
        invariant
            start <= index <= text@.len(),
            whole == string_after(text@.skip(start as int)),
            string@ + string_after(text@.skip(index as int)).0 == whole.0,
            index + string_after(text@.skip(index as int)).1 == start + whole.1,
            start + whole.1 <= text@.len(),
        decreases text@.len() - index,
    {
        let ghost rest = text@.skip(index as int);
        if text[index] == '"' {
            assert(string@ + Seq::<char>::empty() =~= string@);
            return (string, index + 1);
        }
        let (character, length): (char, usize) = if text[index] == '\\' {
            escape_at(text, index)
        } else {
            (text[index], 1)
        };
        proof {
            assert(rest.skip(length as int) =~= text@.skip(index + length));
            let after = string_after(rest.skip(length as int)).0;
            assert(string@ + (seq![character] + after) =~= string@.push(character) + after);
        }
        string.push(character);
        index = index + length;
    }
    assert(string@ + Seq::<char>::empty() =~= string@);
    (string, index)
}

fn marked(character: char) -> (token: Token)
    ensures
        token@ == mark(character),
{
    if character == '{' || character == '[' {
        Token::Open
    } else if character == '}' || character == ']' {
        Token::Close
    } else if character == ':' {
        Token::Colon
    } else {
        Token::Other
    }
}

/// Reads the tokens of a text.
pub fn read_tokens(text: &Vec<char>) -> (list: Vec<Token>)
    ensures
        token_views(list@) == tokens(text@),
{
    let mut list: Vec<Token> = Vec::new();
    let mut index: usize = 0;
    assert(text@.skip(0) =~= text@);
    assert(token_views(list@) + tokens(text@) =~= tokens(text@));
    while index < text.len()
        invariant
            index <= text@.len(),
            token_views(list@) + tokens(text@.skip(index as int)) == tokens(text@),
        decreases text@.len() - index,
    {
        let ghost rest = text@.skip(index as int);
        let ghost before = token_views(list@);
        let character = text[index];
        if character == '"' {
            let (string, next): (String, usize) = string_at(text, index + 1);
            proof {
                assert(rest.skip(1) =~= text@.skip(index + 1));
                assert(rest.skip(next - index) =~= text@.skip(next as int));
                lemma_one_more(
                    before,
                    TokenView::Text(string@),
                    tokens(text@.skip(next as int)),
                );
                lemma_pushed(list@, Token::Text(string));
            }
            list.push(Token::Text(string));
            index = next;
        } else {
            assert(rest.skip(1) =~= text@.skip(index + 1));
            if character != ' ' && character != '\n' && character != '\t' && character != '\r' {
                let token = marked(character);
                proof {
                    lemma_one_more(before, token@, tokens(text@.skip(index + 1)));
                    lemma_pushed(list@, token);
                }
                list.push(token);
            }
            index = index + 1;
        }
    }
    assert(token_views(list@) + Seq::<TokenView>::empty() =~= token_views(list@));
    list
}

/// A character outside of strings makes one token, and white space makes none.
pub proof fn characters_make_their_tokens(character: char, rest: Seq<char>)
    requires
        character != '"',
    ensures
        ({
            let text = seq![character] + rest;
            &&& character == ' ' || character == '\n' || character == '\t' || character == '\r'
                ==> tokens(text) == tokens(rest)
            &&& character == '{' || character == '[' ==> tokens(text) == seq![TokenView::Open]
                + tokens(rest)
            &&& character == '}' || character == ']' ==> tokens(text) == seq![TokenView::Close]
                + tokens(rest)
            &&& character == ':' ==> tokens(text) == seq![TokenView::Colon] + tokens(rest)
            &&& character == ',' ==> tokens(text) == seq![TokenView::Other] + tokens(rest)
        }),
{
    assert((seq![character] + rest).skip(1) =~= rest);
}

/// Whether a text needs no escapes in a string.
pub open spec fn is_plain(text: Seq<char>) -> bool {
    forall|i: int| 0 <= i < text.len() ==> #[trigger] text[i] != '"' && text[i] != '\\'
}

proof fn lemma_plain_string(text: Seq<char>, rest: Seq<char>)
    requires
        is_plain(text),
    ensures
        string_after(text + seq!['"'] + rest) == (text, (text.len() + 1) as int),
    decreases text.len(),
{
    let whole = text + seq!['"'] + rest;
    if text.len() > 0 {
        let shorter = text.skip(1);
        assert forall|i: int| 0 <= i < shorter.len() implies #[trigger] shorter[i] != '"'
            && shorter[i] != '\\' by {
            assert(shorter[i] == text[i + 1]);
        }
        assert(text[0] != '"' && text[0] != '\\');
        lemma_plain_string(shorter, rest);
        assert(whole.skip(1) =~= shorter + seq!['"'] + rest);
        assert(seq![text[0]] + shorter =~= text);
    } else {
        assert(whole[0] == '"');
        assert(text =~= Seq::<char>::empty());
    }
}

/// A string without escapes is read as the text between its quotes, and reading goes
/// on behind it.
pub proof fn plain_strings_are_read_as_they_are(text: Seq<char>, rest: Seq<char>)
    requires
        is_plain(text),
    ensures
        tokens(seq!['"'] + text + seq!['"'] + rest) == seq![TokenView::Text(text)] + tokens(rest),
{
    let whole = seq!['"'] + text + seq!['"'] + rest;
    lemma_plain_string(text, rest);
    assert(whole.skip(1) =~= text + seq!['"'] + rest);
    assert(whole.skip(2 + text.len() as int) =~= rest);
}

/// Every short escape stands for its character and takes two characters.
pub proof fn short_escapes_stand_for_their_character(kind: char, rest: Seq<char>)
    ensures
        ({
            let text = seq!['\\', kind] + rest;
            &&& kind == '"' ==> escaped(text) == ('"', 2int)
            &&& kind == '\\' ==> escaped(text) == ('\\', 2int)
            &&& kind == '/' ==> escaped(text) == ('/', 2int)
            &&& kind == 'n' ==> escaped(text) == ('\n', 2int)
            &&& kind == 'r' ==> escaped(text) == ('\r', 2int)
            &&& kind == 't' ==> escaped(text) == ('\t', 2int)
            &&& kind == 'b' ==> escaped(text).0 as int == 8 && escaped(text).1 == 2
            &&& kind == 'f' ==> escaped(text).0 as int == 12 && escaped(text).1 == 2
        }),
{
}

/// An escape of four hexadecimal digits stands for the character with that number,
/// and a pair of them for the character that the pair of surrogates encodes.
pub proof fn long_escapes_stand_for_their_number(unit: int, low: int, text: Seq<char>, to: char)
    requires
        text.len() >= 6,
        text[0] == '\\' && text[1] == 'u',
        code_unit(text.skip(2)) == Some(unit),
    ensures
        (unit < 0xd800 || unit > 0xdfff) && to as int == unit ==> escaped(text) == (to, 6int),
        0xd800 <= unit <= 0xdbff && text.len() >= 12 && text[6] == '\\' && text[7] == 'u'
            && code_unit(text.skip(8)) == Some(low) && 0xdc00 <= low <= 0xdfff && to as int == (unit
            - 0xd800) * 1024 + (low - 0xdc00) + 65536 ==> escaped(text) == (to, 12int),
{
    if to as int == unit {
        assert(has_code(to, unit));
    }
    let code = 0x10000 + (unit - 0xd800) * 0x400 + (low - 0xdc00);
    if to as int == code {
        assert(has_code(to, code));
    }
}

} // verus!
