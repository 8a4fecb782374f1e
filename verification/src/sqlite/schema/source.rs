//! The definitions that a migration gives its tables and indexes.

use crate::sqlite::schema::normalization::in_string;
use crate::text::{characters, find_from, first_from, occurs_at, spelled};
use vstd::prelude::*;

verus! {

/// The first position of `needle` in `text` from `from` on, if it occurs there.
pub open spec fn first_at(text: Seq<char>, needle: Seq<char>, from: int) -> Option<int>
    decreases text.len() + 1 - from,
{
    if from < 0 || from > text.len() {
        None
    } else if occurs_at(text, needle, from) {
        Some(from)
    } else {
        first_at(text, needle, from + 1)
    }
}

proof fn lemma_first_at(text: Seq<char>, needle: Seq<char>, from: int, at: int)
    requires
        0 <= from,
        first_from(text, needle, from, at),
    ensures
        first_at(text, needle, from) == Some(at),
    decreases at - from,
{
    if from < at {
        lemma_first_at(text, needle, from + 1, at);
    }
}

proof fn lemma_nowhere(text: Seq<char>, needle: Seq<char>, from: int)
    requires
        0 <= from,
        forall|at: int| from <= at ==> !occurs_at(text, needle, at),
    ensures
        first_at(text, needle, from) is None,
    decreases text.len() + 1 - from,
{
    if from <= text.len() {
        lemma_nowhere(text, needle, from + 1);
    }
}

/// Finds the first position of `needle` in `text` from `from` on.
fn find(text: &Vec<char>, needle: &str, from: usize) -> (found: Option<usize>)
    requires
        from <= text@.len(),
    ensures
        match found {
            Some(at) => first_at(text@, needle@, from as int) == Some(at as int) && from <= at
                && at + needle@.len() <= text@.len(),
            None => first_at(text@, needle@, from as int) is None,
        },
{
    let pattern = characters(needle);
    let found = find_from(text.as_slice(), pattern.as_slice(), from);
    proof {
        match found {
            Some(at) => lemma_first_at(text@, needle@, from as int, at as int),
            None => lemma_nowhere(text@, needle@, from as int),
        }
    }
    found
}

/// The depth of open parentheses outside of string literals at the end of a
/// text, between zero and the largest `u32`.
pub open spec fn nesting(text: Seq<char>) -> int
    decreases text.len(),
{
    if text.len() == 0 {
        0
    } else {
        let before = nesting(text.drop_last());
        let outside = !in_string(text.drop_last());
        if text.last() == '(' && outside && before < u32::MAX {
            before + 1
        } else if text.last() == ')' && outside && before > 0 {
            before - 1
        } else {
            before
        }
    }
}

/// Whether a statement at the start of `text` ends at `end`: at a semicolon
/// outside of string literals and parentheses.
pub open spec fn ends_statement(text: Seq<char>, end: int) -> bool {
    text[end] == ';' && !in_string(text.take(end)) && nesting(text.take(end)) == 0
}

/// Where the statement at the start of `text` ends, from `from` on.
pub open spec fn statement_end(text: Seq<char>, from: int) -> Option<int>
    decreases text.len() - from,
{
    if from < 0 || from >= text.len() {
        None
    } else if ends_statement(text, from) {
        Some(from)
    } else {
        statement_end(text, from + 1)
    }
}

/// The statement that creates a table, or why the migration has none.
pub open spec fn table_source(migration: Seq<char>, table: Seq<char>) -> Result<
    Seq<char>,
    Seq<char>,
> {
    match first_at(migration, "CREATE TABLE "@ + table, 0) {
        None => Err("migration does not define "@ + table),
        Some(start) => match statement_end(migration.skip(start), 0) {
            None => Err("migration statement for "@ + table + " is unterminated"@),
            Some(end) => Ok(migration.skip(start).take(end)),
        },
    }
}

/// Whether a result is the source that `expected` describes.
pub open spec fn sourced(
    expected: Result<Seq<char>, Seq<char>>,
    result: Result<String, String>,
) -> bool {
    match result {
        Ok(source) => expected == Ok::<Seq<char>, Seq<char>>(source@),
        Err(detail) => expected == Err::<Seq<char>, Seq<char>>(detail@),
    }
}

/// The end of the statement that starts at `start`.
fn find_statement_end(text: &Vec<char>, start: usize) -> (found: Option<usize>)
    requires
        start <= text@.len(),
    ensures
        match found {
            Some(end) => start <= end < text@.len() && statement_end(text@.skip(start as int), 0)
                == Some(end - start),
            None => statement_end(text@.skip(start as int), 0) is None,
        },
{
    let ghost rest = text@.skip(start as int);
    let mut depth: u32 = 0;
    let mut quoted = false;
    let mut index: usize = start;
    assert(rest.take(0) =~= Seq::<char>::empty());
    while index < text.len()
        invariant
            start <= index <= text@.len(),
            rest == text@.skip(start as int),
            quoted == in_string(rest.take(index - start)),
            depth == nesting(rest.take(index - start)),
            statement_end(rest, 0) == statement_end(rest, index - start),
        decreases text@.len() - index,
    {
        let character = text[index];
        proof {
            let longer = rest.take(index - start + 1);
            assert(longer.drop_last() =~= rest.take(index - start));
            assert(longer.last() == character);
        }
        if character == '\'' {
            quoted = !quoted;
        } else if character == '(' && !quoted {
            if depth < u32::MAX {
                depth = depth + 1;
            }
        } else if character == ')' && !quoted {
            if depth > 0 {
                depth = depth - 1;
            }
        } else if character == ';' && !quoted && depth == 0 {
            return Some(index);
        }
        index = index + 1;
    }
    None
}

/// Finds the statement by which a migration creates a table.
pub fn expected_table_source(migration: &str, table: &str) -> (result: Result<String, String>)
    ensures
        sourced(table_source(migration@, table@), result),
{
    let text = characters(migration);
    let needle = "CREATE TABLE ".to_owned().concat(table);
    let start: usize = match find(&text, needle.as_str(), 0) {
        Some(start) => start,
        None => return Err("migration does not define ".to_owned().concat(table)),
    };
    match find_statement_end(&text, start) {
        Some(end) => {
            let source = spelled(text.as_slice(), start, end);
            assert(source@ =~= text@.skip(start as int).take(end - start));
            Ok(source)
        },
        None => Err(
            "migration statement for ".to_owned().concat(table).concat(" is unterminated"),
        ),
    }
}

/// How the statement begins that creates an index.
pub open spec fn index_needle(migration: Seq<char>, index: Seq<char>) -> Seq<char> {
    if first_at(migration, "CREATE UNIQUE INDEX "@ + index, 0) is Some {
        "CREATE UNIQUE INDEX "@ + index
    } else {
        "CREATE INDEX "@ + index
    }
}

/// The statement that creates an index, or why the migration has none.
pub open spec fn index_source(migration: Seq<char>, index: Seq<char>) -> Result<
    Seq<char>,
    Seq<char>,
> {
    match first_at(migration, index_needle(migration, index), 0) {
        None => Err("migration does not define "@ + index),
        Some(start) => match first_at(migration, ";"@, start) {
            None => Err("migration statement for "@ + index + " is unterminated"@),
            Some(end) => Ok(migration.subrange(start, end)),
        },
    }
}

/// Finds the statement by which a migration creates an index.
pub fn expected_index_source(migration: &str, index: &str) -> (result: Result<String, String>)
    ensures
        sourced(index_source(migration@, index@), result),
{
    let text = characters(migration);
    let unique = "CREATE UNIQUE INDEX ".to_owned().concat(index);
    let needle = if find(&text, unique.as_str(), 0).is_some() {
        unique
    } else {
        "CREATE INDEX ".to_owned().concat(index)
    };
    let start: usize = match find(&text, needle.as_str(), 0) {
        Some(start) => start,
        None => return Err("migration does not define ".to_owned().concat(index)),
    };
    match find(&text, ";", start) {
        Some(end) => Ok(spelled(text.as_slice(), start, end)),
        None => Err(
            "migration statement for ".to_owned().concat(index).concat(" is unterminated"),
        ),
    }
}

proof fn lemma_first_at_found(text: Seq<char>, needle: Seq<char>, from: int)
    requires
        first_at(text, needle, from) is Some,
    ensures
        first_from(text, needle, from, first_at(text, needle, from)->0),
    decreases text.len() + 1 - from,
{
    if !occurs_at(text, needle, from) {
        lemma_first_at_found(text, needle, from + 1);
    }
}

proof fn lemma_statement_end_found(text: Seq<char>, from: int)
    requires
        statement_end(text, from) is Some,
    ensures
        from <= statement_end(text, from)->0 < text.len(),
        ends_statement(text, statement_end(text, from)->0),
        forall|before: int|
            from <= before < statement_end(text, from)->0 ==> !ends_statement(text, before),
    decreases text.len() - from,
{
    if !ends_statement(text, from) {
        lemma_statement_end_found(text, from + 1);
    }
}

/// A table's statement stands in the migration, begins with its creation, is
/// closed, and holds no earlier end: it is that one statement whole.
pub proof fn a_table_source_is_one_statement(
    migration: Seq<char>,
    table: Seq<char>,
    source: Seq<char>,
)
    requires
        table_source(migration, table) == Ok::<Seq<char>, Seq<char>>(source),
    ensures
        exists|start: int|
            first_from(migration, "CREATE TABLE "@ + table, 0, start) && #[trigger] occurs_at(
                migration,
                source.push(';'),
                start,
            ),
        !in_string(source),
        nesting(source) == 0,
        forall|end: int| 0 <= end < source.len() ==> !ends_statement(source, end),
{
    let needle = "CREATE TABLE "@ + table;
    lemma_first_at_found(migration, needle, 0);
    let start = first_at(migration, needle, 0)->0;
    let rest = migration.skip(start);
    lemma_statement_end_found(rest, 0);
    let end = statement_end(rest, 0)->0;
    assert(source =~= rest.take(end));
    assert(migration.subrange(start, start + end + 1) =~= source.push(';'));
    assert(occurs_at(migration, source.push(';'), start));
    assert forall|before: int| 0 <= before < source.len() implies !ends_statement(
        source,
        before,
    ) by {
        assert(source.take(before) =~= rest.take(before));
        assert(!ends_statement(rest, before));
    }
}

/// An index's statement stands in the migration, begins with its creation, and ends
/// at the next semicolon. A unique index of the name goes before one that is not.
pub proof fn an_index_source_is_one_statement(
    migration: &str,
    index: &str,
    result: Result<String, String>,
)
    requires
        call_ensures(expected_index_source, (migration, index), result),
    ensures
        ({
            let unique = "CREATE UNIQUE INDEX "@ + index@;
            let plain = "CREATE INDEX "@ + index@;
            &&& result matches Ok(source) ==> exists|start: int|
                {
                    &&& #[trigger] occurs_at(migration@, source@.push(';'), start)
                    &&& first_from(migration@, unique, 0, start) || ({
                        &&& first_from(migration@, plain, 0, start)
                        &&& forall|at: int| 0 <= at ==> !#[trigger] occurs_at(migration@, unique, at)
                    })
                }
            &&& result matches Ok(source) ==> forall|i: int|
                0 <= i < source@.len() ==> #[trigger] source@[i] != ';'
        }),
{
    let needle = index_needle(migration@, index@);
    let unique = "CREATE UNIQUE INDEX "@ + index@;
    if result is Ok {
        reveal_strlit(";");
        lemma_first_at_found(migration@, needle, 0);
        let start = first_at(migration@, needle, 0)->0;
        lemma_first_at_found(migration@, ";"@, start);
        let end = first_at(migration@, ";"@, start)->0;
        let source = result->Ok_0@;
        assert(migration@.subrange(end, end + 1)[0] == migration@[end]);
        assert(migration@.subrange(start, end + 1) =~= source.push(';'));
        assert(occurs_at(migration@, source.push(';'), start));
        assert forall|i: int| 0 <= i < source.len() implies #[trigger] source[i] != ';' by {
            if source[i] == ';' {
                assert(migration@.subrange(start + i, start + i + 1) =~= ";"@);
                assert(occurs_at(migration@, ";"@, start + i));
            }
        }
        if first_at(migration@, unique, 0) is None {
            assert forall|at: int| 0 <= at implies !#[trigger] occurs_at(migration@, unique, at) by {
                lemma_nowhere_at(migration@, unique, 0, at);
            }
        }
    }
}

proof fn lemma_nowhere_at(text: Seq<char>, needle: Seq<char>, from: int, at: int)
    requires
        0 <= from <= at,
        first_at(text, needle, from) is None,
    ensures
        !occurs_at(text, needle, at),
    decreases at - from,
{
    if from <= text.len() && from < at {
        lemma_nowhere_at(text, needle, from + 1, at);
    }
}

/// A migration that does not define an object, or does not end its statement, is told
/// with the name of the object.
pub proof fn missing_sources_are_told(
    migration: &str,
    name: &str,
    table: Result<String, String>,
    index: Result<String, String>,
)
    requires
        call_ensures(expected_table_source, (migration, name), table),
        call_ensures(expected_index_source, (migration, name), index),
    ensures
        table matches Err(detail) ==> detail@ == "migration does not define "@ + name@ || detail@
            == "migration statement for "@ + name@ + " is unterminated"@,
        index matches Err(detail) ==> detail@ == "migration does not define "@ + name@ || detail@
            == "migration statement for "@ + name@ + " is unterminated"@,
{
}

} // verus!
