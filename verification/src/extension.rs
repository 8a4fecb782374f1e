//! What is checked of a stored extension set before the domain decodes it.
//!
//! A set is stored as a JSON object of tagged values, such as
//! `{"seen":{"type":"timestamp","value":"2024-01-01T00:00:00Z"}}`. The domain
//! moves every timestamp to UTC and renders it, which only the years 0 to 9999
//! allow, so other timestamps are refused first.

use crate::instant::{read_rfc3339, rfc3339_reading, EARLIEST_RENDERED_NANOS, LATEST_NANOS};
use crate::json::{read_tokens, token_views, tokens, Token, TokenView};
use crate::text::{characters, same_text};
use vstd::prelude::*;

verus! {

/// The name under which a JSON text can be embedded as a string: a JSON parser that
/// keeps raw values takes an object that begins with this name for the value that
/// the string spells. No accepted set has such a member.
pub const EMBEDDED: &'static str = "$serde_json::private::RawValue";

/// How many objects and arrays are open before a token.
pub open spec fn depth(list: Seq<TokenView>, at: int) -> nat
    decreases at,
{
    if at <= 0 {
        0
    } else {
        let before = depth(list, at - 1);
        match list[at - 1] {
            TokenView::Open => before + 1,
            TokenView::Close => if before > 0 {
                (before - 1) as nat
            } else {
                0
            },
            _ => before,
        }
    }
}

/// Where the tagged value around a token begins: tagged values are the objects in
/// the outermost object. A token outside of them stands by itself.
pub open spec fn tagged_from(list: Seq<TokenView>, at: int) -> int
    decreases at,
{
    if at <= 0 || depth(list, at) < 2 || depth(list, at - 1) < 2 {
        at
    } else {
        tagged_from(list, at - 1)
    }
}

/// Whether a token is the given name of a member.
pub open spec fn is_name(list: Seq<TokenView>, at: int, name: Seq<char>) -> bool {
    &&& 0 <= at && at + 1 < list.len()
    &&& list[at] == TokenView::Text(name)
    &&& list[at + 1] == TokenView::Colon
}

/// The text of the member with that name that begins at a token of a tagged value,
/// if one does.
pub open spec fn tagged_member(list: Seq<TokenView>, at: int, name: Seq<char>) -> Option<
    Seq<char>,
> {
    if is_name(list, at, name) && at + 2 < list.len() && depth(list, at) == 2 {
        match list[at + 2] {
            TokenView::Text(text) => Some(text),
            _ => None,
        }
    } else {
        None
    }
}

/// Whether a text is no time at all or one that can be rendered in UTC.
pub open spec fn is_renderable(text: Seq<char>) -> bool {
    rfc3339_reading(text) matches Ok(nanos) ==> EARLIEST_RENDERED_NANOS <= nanos <= LATEST_NANOS
}

/// Whether a tagged value is said to be a timestamp at a token.
pub open spec fn says_timestamp(list: Seq<TokenView>, at: int) -> bool {
    tagged_member(list, at, "type"@) == Some("timestamp"@)
}

/// Whether a tagged value has a text at a token that is a time without a
/// rendering.
pub open spec fn has_stray_time(list: Seq<TokenView>, at: int) -> bool {
    tagged_member(list, at, "value"@) matches Some(text) && !is_renderable(text)
}

/// Whether every timestamp among the tagged values can be rendered.
pub open spec fn timestamps_render(list: Seq<TokenView>) -> bool {
    forall|said: int, stray: int|
        0 <= said < list.len() && 0 <= stray < list.len() && #[trigger] says_timestamp(list, said)
            && #[trigger] has_stray_time(list, stray) ==> tagged_from(list, said) != tagged_from(
            list,
            stray,
        )
}

/// Whether no member embeds a JSON text.
pub open spec fn embeds_nothing(list: Seq<TokenView>) -> bool {
    forall|at: int| 0 <= at < list.len() ==> !#[trigger] is_name(list, at, EMBEDDED@)
}

/// Why a stored extension set is not handed to the domain, if it is not.
pub open spec fn undecodable(text: Seq<char>) -> Option<Seq<char>> {
    if !embeds_nothing(tokens(text)) {
        Some("extensions: hold an embedded JSON text"@)
    } else if !timestamps_render(tokens(text)) {
        Some("extensions: hold a timestamp outside of the years 0 to 9999"@)
    } else {
        None
    }
}

proof fn lemma_tagged_from_is_before(list: Seq<TokenView>, at: int)
    ensures
        tagged_from(list, at) <= at,
    decreases at,
{
    if !(at <= 0 || depth(list, at) < 2 || depth(list, at - 1) < 2) {
        lemma_tagged_from_is_before(list, at - 1);
    }
}

fn renders(text: &str) -> (renderable: bool)
    ensures
        renderable == is_renderable(text@),
{
    match read_rfc3339(text) {
        Ok(nanos) => EARLIEST_RENDERED_NANOS <= nanos && nanos <= LATEST_NANOS,
        Err(_) => true,
    }
}

fn named(list: &Vec<Token>, at: usize, name: &str) -> (found: bool)
    requires
        at < list@.len(),
    ensures
        found == is_name(token_views(list@), at as int, name@),
{
    if list.len() - at < 2 {
        return false;
    }
    let same = match &list[at] {
        Token::Text(text) => same_text(text.as_str(), name),
        _ => false,
    };
    let followed = match &list[at + 1] {
        Token::Colon => true,
        _ => false,
    };
    same && followed
}

fn member<'a>(list: &'a Vec<Token>, at: usize, name: &str, level: usize) -> (text: Option<&'a str>)
    requires
        at < list@.len(),
        level == depth(token_views(list@), at as int),
    ensures
        match text {
            Some(text) => tagged_member(token_views(list@), at as int, name@) == Some(text@),
            None => tagged_member(token_views(list@), at as int, name@) is None,
        },
{
    if level != 2 || list.len() - at < 3 || !named(list, at, name) {
        return None;
    }
    match &list[at + 2] {
        Token::Text(text) => Some(text.as_str()),
        _ => None,
    }
}

fn check_embedding(list: &Vec<Token>) -> (clean: bool)
    ensures
        clean == embeds_nothing(token_views(list@)),
{
    let mut index: usize = 0;
    while index < list.len()
        invariant
            index <= list@.len(),
            forall|at: int|
                0 <= at < index ==> !#[trigger] is_name(token_views(list@), at, EMBEDDED@),
        decreases list@.len() - index,
    {
        if named(list, index, EMBEDDED) {
            return false;
        }
        index = index + 1;
    }
    true
}

fn check_timestamps(list: &Vec<Token>) -> (clean: bool)
    ensures
        clean == timestamps_render(token_views(list@)),
{
    let ghost views = token_views(list@);
    let mut index: usize = 0;
    let mut level: usize = 0;
    let mut said = false;
    let mut stray = false;
    let ghost mut start: int = 0;
    while index < list.len()
        invariant
            views == token_views(list@),
            views.len() == list@.len(),
            index <= list@.len(),
            level == depth(views, index as int),
            level <= index,
            start == tagged_from(views, index as int),
            said == exists|at: int|
                0 <= at < index && #[trigger] says_timestamp(views, at) && tagged_from(views, at)
                    == start,
            stray == exists|at: int|
                0 <= at < index && #[trigger] has_stray_time(views, at) && tagged_from(views, at)
                    == start,
            forall|a: int, b: int|
                0 <= a < index && 0 <= b < index && #[trigger] says_timestamp(views, a)
                    && #[trigger] has_stray_time(views, b) ==> tagged_from(views, a)
                    != tagged_from(views, b),
        decreases list@.len() - index,
    {
        let says = match member(list, index, "type", level) {
            Some(kind) => same_text(kind, "timestamp"),
            None => false,
        };
        let strays = match member(list, index, "value", level) {
            Some(text) => !renders(text),
            None => false,
        };
        assert(says == says_timestamp(views, index as int));
        assert(strays == has_stray_time(views, index as int));
        said = said || says;
        stray = stray || strays;
        if said && stray {
            proof {
                let a = choose|at: int|
                    0 <= at <= index && #[trigger] says_timestamp(views, at) && tagged_from(
                        views,
                        at,
                    ) == start;
                let b = choose|at: int|
                    0 <= at <= index && #[trigger] has_stray_time(views, at) && tagged_from(
                        views,
                        at,
                    ) == start;
                assert(says_timestamp(views, a) && has_stray_time(views, b));
            }
            return false;
        }
        let next: usize = match &list[index] {
            Token::Open => level + 1,
            Token::Close => if level > 0 {
                level - 1
            } else {
                0
            },
            _ => level,
        };
        assert(views[index as int] == list@[index as int]@);
        if next < 2 || level < 2 {
            proof {
                assert forall|at: int| 0 <= at <= index implies tagged_from(views, at) != index
                    + 1 by {
                    lemma_tagged_from_is_before(views, at);
                }
                start = index + 1;
            }
            said = false;
            stray = false;
        }
        level = next;
        index = index + 1;
    }
    true
}

/// Tells why a stored extension set is not handed to the domain, if it is not.
pub fn find_undecodable(text: &str) -> (reason: Option<&'static str>)
    ensures
        match reason {
            Some(reason) => undecodable(text@) == Some(reason@),
            None => undecodable(text@) is None,
        },
{
    let list = read_tokens(&characters(text));
    if !check_embedding(&list) {
        Some("extensions: hold an embedded JSON text")
    } else if !check_timestamps(&list) {
        Some("extensions: hold a timestamp outside of the years 0 to 9999")
    } else {
        None
    }
}

/// The tokens of a set with one tagged value, whose type and value stand in this
/// order.
pub open spec fn one_value(name: Seq<char>, kind: Seq<char>, value: Seq<char>) -> Seq<TokenView> {
    seq![
        TokenView::Open,
        TokenView::Text(name),
        TokenView::Colon,
        TokenView::Open,
        TokenView::Text("type"@),
        TokenView::Colon,
        TokenView::Text(kind),
        TokenView::Other,
        TokenView::Text("value"@),
        TokenView::Colon,
        TokenView::Text(value),
        TokenView::Close,
        TokenView::Close,
    ]
}

proof fn lemma_depths_of_one_value(name: Seq<char>, kind: Seq<char>, value: Seq<char>)
    ensures
        ({
            let list = one_value(name, kind, value);
            &&& depth(list, 0) == 0
            &&& depth(list, 1) == 1
            &&& depth(list, 2) == 1
            &&& depth(list, 3) == 1
            &&& forall|at: int| 4 <= at <= 11 ==> #[trigger] depth(list, at) == 2
            &&& depth(list, 12) == 1
            &&& forall|at: int| 4 <= at <= 11 ==> #[trigger] tagged_from(list, at) == 4
        }),
{
    let list = one_value(name, kind, value);
    reveal_with_fuel(depth, 2);
    assert(depth(list, 0) == 0);
    assert(depth(list, 1) == 1);
    assert(depth(list, 2) == 1);
    assert(depth(list, 3) == 1);
    assert(depth(list, 4) == 2);
    assert(depth(list, 5) == 2);
    assert(depth(list, 6) == 2);
    assert(depth(list, 7) == 2);
    assert(depth(list, 8) == 2);
    assert(depth(list, 9) == 2);
    assert(depth(list, 10) == 2);
    assert(depth(list, 11) == 2);
    assert(depth(list, 12) == 1);
    assert(tagged_from(list, 4) == 4);
    assert(tagged_from(list, 5) == 4);
    assert(tagged_from(list, 6) == 4);
    assert(tagged_from(list, 7) == 4);
    assert(tagged_from(list, 8) == 4);
    assert(tagged_from(list, 9) == 4);
    assert(tagged_from(list, 10) == 4);
    assert(tagged_from(list, 11) == 4);
}

/// A set with one tagged value is handed to the domain exactly if the value is no
/// timestamp, or one that is no time at all or lies in the years 0 to 9999 in UTC, and
/// nothing in it has the name of an embedded text.
pub proof fn only_timestamps_outside_the_calendar_are_kept_back(
    text: &str,
    name: Seq<char>,
    kind: Seq<char>,
    value: Seq<char>,
    reason: Option<&'static str>,
)
    requires
        tokens(text@) == one_value(name, kind, value),
        call_ensures(find_undecodable, (text,), reason),
    ensures
        reason is Some <==> {
            ||| name == "$serde_json::private::RawValue"@
            ||| {
                &&& kind == "timestamp"@
                &&& rfc3339_reading(value) is Ok
                &&& rfc3339_reading(value)->Ok_0 < -62_167_219_200_000_000_000
                    || rfc3339_reading(value)->Ok_0 > 253_402_300_799_999_999_999
            }
        },
{
    let list = one_value(name, kind, value);
    reveal_strlit("type");
    reveal_strlit("value");
    reveal_strlit("$serde_json::private::RawValue");
    assert("type"@[0] == 't' && "value"@[0] == 'v' && EMBEDDED@[0] == '$');
    lemma_depths_of_one_value(name, kind, value);
    assert(is_name(list, 1, EMBEDDED@) <==> name == EMBEDDED@);
    assert(says_timestamp(list, 4) <==> kind == "timestamp"@);
    assert(has_stray_time(list, 8) <==> !is_renderable(value));
    assert(tagged_from(list, 4) == tagged_from(list, 8));
    assert forall|at: int| 0 <= at < list.len() && at != 1 implies !#[trigger] is_name(
        list,
        at,
        EMBEDDED@,
    ) by {}
    assert forall|at: int| 0 <= at < list.len() && #[trigger] says_timestamp(list, at) implies at
        == 4 || at == 1 by {}
    assert forall|at: int| 0 <= at < list.len() && #[trigger] has_stray_time(list, at) implies at
        == 8 || at == 1 by {}
    assert(!says_timestamp(list, 1) && !has_stray_time(list, 1));
}

} // verus!
