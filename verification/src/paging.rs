//! The cursor of a finite snapshot export, and what it guarantees.

use crate::delivery::HydratedPage;
use crate::value::{optional_row_id, row_id_error, RowId};
use vstd::prelude::*;

verus! {

/// How far a finite export over one snapshot has come.
///
/// The export covers the rows up to `upper_bound`. `cursor` is the last row that
/// a non-empty page returned. An export without rows is exhausted from the
/// start.
#[derive(Debug)]
pub struct SnapshotCursor {
    upper_bound: Option<RowId>,
    cursor: Option<RowId>,
    exhausted: bool,
}

/// The mathematical content of a [`SnapshotCursor`].
pub ghost struct CursorView {
    pub upper_bound: Option<int>,
    pub cursor: Option<int>,
    pub exhausted: bool,
}

impl View for SnapshotCursor {
    type V = CursorView;

    closed spec fn view(&self) -> CursorView {
        CursorView {
            upper_bound: optional_row_id(self.upper_bound),
            cursor: optional_row_id(self.cursor),
            exhausted: self.exhausted,
        }
    }
}

/// What a page query reads: rows after `after`, up to `up_to`.
#[derive(Clone, Copy, Debug)]
pub struct PageBounds {
    pub after: i64,
    pub up_to: i64,
}

/// The row after which a page starts; the first page starts before all rows.
pub open spec fn start_after(cursor: Option<int>) -> int {
    match cursor {
        Some(row) => row,
        None => 0,
    }
}

/// The number that a page query binds as its start.
pub fn page_start(after_row_id: Option<RowId>) -> (after: i64)
    ensures
        after == start_after(optional_row_id(after_row_id)),
{
    match after_row_id {
        Some(row_id) => row_id.get(),
        None => 0,
    }
}

/// The cursor after a page with these rows was returned.
pub open spec fn advanced(state: CursorView, rows: Seq<int>, limit: int) -> CursorView {
    if rows.len() == 0 {
        CursorView { exhausted: true, ..state }
    } else {
        CursorView {
            cursor: Some(rows.last()),
            exhausted: state.exhausted || rows.len() < limit || Some(rows.last())
                == state.upper_bound,
            ..state
        }
    }
}

/// The cursor of an export that begins, up to the highest row that its snapshot
/// shows, if it shows any.
pub open spec fn begun(highest: Option<int>) -> CursorView {
    CursorView { upper_bound: highest, cursor: None, exhausted: highest is None }
}

/// The row numbers of a page.
pub open spec fn row_numbers(rows: Seq<HydratedPage>) -> Seq<int> {
    rows.map_values(|row: HydratedPage| row@.row_id)
}

impl SnapshotCursor {
    #[verifier::type_invariant]
    closed spec fn bounded_until_exhausted(self) -> bool {
        self.exhausted || self.upper_bound is Some
    }

    /// Starts an export up to the highest row that the snapshot shows, if it
    /// shows any.
    pub fn begin(highest: Option<i64>) -> (result: Result<SnapshotCursor, String>)
        ensures
            match (highest, result) {
                (None, Ok(state)) => state@ == begun(None),
                (Some(row), Ok(state)) => row_id_error(row as int) is None && state@ == begun(
                    Some(row as int),
                ),
                (Some(row), Err(error)) => row_id_error(row as int) == Some(error@),
                (None, Err(_)) => false,
            },
    {
        match highest {
            None => Ok(SnapshotCursor { upper_bound: None, cursor: None, exhausted: true }),
            Some(row) => match RowId::new(row) {
                Ok(row_id) => Ok(
                    SnapshotCursor { upper_bound: Some(row_id), cursor: None, exhausted: false },
                ),
                Err(error) => Err(error),
            },
        }
    }

    /// The last row that a non-empty page returned.
    pub fn cursor(&self) -> (cursor: Option<RowId>)
        ensures
            optional_row_id(cursor) == self@.cursor,
    {
        self.cursor
    }

    /// The highest row that the export covers.
    pub fn upper_bound(&self) -> (bound: Option<RowId>)
        ensures
            optional_row_id(bound) == self@.upper_bound,
    {
        self.upper_bound
    }

    /// Whether the final page has been returned.
    pub fn is_exhausted(&self) -> (exhausted: bool)
        ensures
            exhausted == self@.exhausted,
    {
        self.exhausted
    }

    /// What the next page reads. An exhausted export reads nothing more.
    pub fn next_bounds(&self) -> (bounds: Option<PageBounds>)
        ensures
            match bounds {
                None => self@.exhausted,
                Some(bounds) => {
                    &&& !self@.exhausted
                    &&& bounds.after == start_after(self@.cursor)
                    &&& self@.upper_bound == Some(bounds.up_to as int)
                },
            },
    {
        proof {
            use_type_invariant(self);
        }
        if self.exhausted {
            return None;
        }
        match self.upper_bound {
            Some(bound) => Some(PageBounds { after: page_start(self.cursor), up_to: bound.get() }),
            None => None,
        }
    }

    /// Notes the page that was returned.
    pub fn advance(&mut self, rows: &Vec<HydratedPage>, limit: u32)
        ensures
            final(self)@ == advanced(old(self)@, row_numbers(rows@), limit as int),
    {
        proof {
            use_type_invariant(&*self);
        }
        let ghost numbers = row_numbers(rows@);
        let upper_bound = self.upper_bound;
        if rows.len() == 0 {
            let cursor = self.cursor;
            *self = SnapshotCursor { upper_bound, cursor, exhausted: true };
        } else {
            let last = rows[rows.len() - 1].row_id();
            assert(numbers.last() == last@);
            let at_bound = match upper_bound {
                Some(bound) => bound.get() == last.get(),
                None => false,
            };
            let exhausted = self.exhausted || rows.len() < limit as usize || at_bound;
            *self = SnapshotCursor { upper_bound, cursor: Some(last), exhausted };
        }
    }
}

/// Whether row numbers are positive and strictly ascend.
pub open spec fn ascending(rows: Seq<int>) -> bool {
    &&& forall|i: int| 0 <= i < rows.len() ==> #[trigger] rows[i] > 0
    &&& forall|i: int, j: int| 0 <= i < j < rows.len() ==> #[trigger] rows[i] < #[trigger] rows[j]
}

/// The cursor of an export over `visible` rows after it returned the first
/// `count` of them.
pub open spec fn export_after(visible: Seq<int>, count: int) -> CursorView {
    CursorView {
        upper_bound: if visible.len() == 0 {
            None
        } else {
            Some(visible.last())
        },
        cursor: if count == 0 {
            None
        } else {
            Some(visible[count - 1])
        },
        exhausted: count == visible.len(),
    }
}

/// Whether a page holds the first `limit` of the `visible` rows after `after` and
/// up to `up_to`, in ascending order.
pub open spec fn is_page(
    page: Seq<int>,
    visible: Seq<int>,
    after: int,
    up_to: int,
    limit: int,
) -> bool {
    exists|from: int, to: int|
        {
            &&& 0 <= from <= to <= visible.len()
            &&& page == #[trigger] visible.subrange(from, to)
            &&& forall|i: int| 0 <= i < from ==> #[trigger] visible[i] <= after
            &&& forall|i: int| from <= i < to ==> after < #[trigger] visible[i] <= up_to
            &&& to - from <= limit
            &&& to - from < limit ==> forall|i: int|
                to <= i < visible.len() ==> #[trigger] visible[i] > up_to
        }
}

/// A page of an export continues it without gap or repetition, is not empty, and
/// exhausts it exactly when it returned every row: after pages with the first
/// `count` rows, the next page holds the rows that follow.
pub proof fn pages_continue_the_export(
    visible: Seq<int>,
    count: int,
    page: Seq<int>,
    limit: int,
)
    requires
        ascending(visible),
        0 <= count < visible.len(),
        limit > 0,
        is_page(
            page,
            visible,
            start_after(export_after(visible, count).cursor),
            visible.last(),
            limit,
        ),
    ensures
        page.len() > 0,
        count + page.len() <= visible.len(),
        page == visible.subrange(count, count + page.len()),
        advanced(export_after(visible, count), page, limit) == export_after(
            visible,
            count + page.len(),
        ),
{
    let after = start_after(export_after(visible, count).cursor);
    let (from, to) = choose|from: int, to: int|
        {
            &&& 0 <= from <= to <= visible.len()
            &&& page == #[trigger] visible.subrange(from, to)
            &&& forall|i: int| 0 <= i < from ==> #[trigger] visible[i] <= after
            &&& forall|i: int| from <= i < to ==> after < #[trigger] visible[i] <= visible.last()
            &&& to - from <= limit
            &&& to - from < limit ==> forall|i: int|
                to <= i < visible.len() ==> #[trigger] visible[i] > visible.last()
        };
    assert(visible[count] > after);
    if to - from < limit {
        if to < visible.len() {
            assert(visible[visible.len() - 1] > visible.last());
        }
    }
    assert(from <= count);
    if from < count {
        if from < to {
            assert(visible[from] <= visible[count - 1]);
        }
    }
    assert(from == count);
    assert(page.last() == visible[to - 1]);
    if to < visible.len() {
        assert(visible[to - 1] < visible[visible.len() - 1]);
    }
}

/// Whether pages are those of an export that goes on from `state` until it is
/// exhausted, each page read where the cursor stands, with a limit of its own,
/// and handed to the cursor.
pub open spec fn is_export(
    state: CursorView,
    visible: Seq<int>,
    pages: Seq<Seq<int>>,
    limits: Seq<int>,
) -> bool
    decreases pages.len(),
{
    if pages.len() == 0 {
        state.exhausted
    } else {
        &&& !state.exhausted
        &&& is_page(
            pages[0],
            visible,
            start_after(state.cursor),
            state.upper_bound->0,
            limits[0],
        )
        &&& is_export(
            advanced(state, pages[0], limits[0]),
            visible,
            pages.drop_first(),
            limits.drop_first(),
        )
    }
}

/// Whether there is a positive limit for each page.
pub open spec fn limits_pages(limits: Seq<int>, pages: Seq<Seq<int>>) -> bool {
    &&& limits.len() == pages.len()
    &&& forall|i: int| 0 <= i < limits.len() ==> #[trigger] limits[i] > 0
}

/// The highest of ascending rows, if there is one.
pub open spec fn highest(visible: Seq<int>) -> Option<int> {
    if visible.len() == 0 {
        None
    } else {
        Some(visible.last())
    }
}

/// An export returns every row that its snapshot shows once, in ascending order,
/// however the pages are cut and whatever the limit of each page. It begins at the
/// highest of these rows and takes no more pages than there are rows. Rows that are
/// committed after the snapshot, also those with smaller numbers, are not among the
/// visible ones.
pub proof fn an_export_returns_every_row_once(
    visible: Seq<int>,
    pages: Seq<Seq<int>>,
    limits: Seq<int>,
)
    requires
        ascending(visible),
        limits_pages(limits, pages),
        is_export(begun(highest(visible)), visible, pages, limits),
    ensures
        pages.flatten() == visible,
        pages.len() <= visible.len(),
{
    assert(begun(highest(visible)) == export_after(visible, 0));
    lemma_export_returns_the_rest(visible, 0, pages, limits);
    assert(visible.skip(0) == visible);
}

/// An export over no rows is exhausted from the start and has no bound.
pub proof fn an_export_over_nothing_is_exhausted()
    ensures
        begun(highest(Seq::empty())).exhausted,
        begun(highest(Seq::empty())).upper_bound is None,
{
}

/// The bound of an export never changes, whatever is read.
pub proof fn exports_keep_their_bound(state: CursorView, rows: Seq<int>, limit: int)
    ensures
        advanced(state, rows, limit).upper_bound == state.upper_bound,
{
}

proof fn lemma_export_returns_the_rest(
    visible: Seq<int>,
    count: int,
    pages: Seq<Seq<int>>,
    limits: Seq<int>,
)
    requires
        ascending(visible),
        limits_pages(limits, pages),
        0 <= count <= visible.len(),
        is_export(export_after(visible, count), visible, pages, limits),
    ensures
        pages.flatten() == visible.skip(count),
        pages.len() <= visible.len() - count,
    decreases pages.len(),
{
    if pages.len() == 0 {
        assert(pages.flatten() == visible.skip(count));
    } else {
        let next = count + pages[0].len();
        pages_continue_the_export(visible, count, pages[0], limits[0]);
        lemma_export_returns_the_rest(visible, next, pages.drop_first(), limits.drop_first());
        assert(visible.subrange(count, next) + visible.skip(next) == visible.skip(count));
    }
}

/// An exhausted export stays exhausted and keeps its bound, whatever is read.
pub proof fn exhausted_exports_stay_exhausted(state: CursorView, rows: Seq<int>, limit: int)
    requires
        state.exhausted,
    ensures
        advanced(state, rows, limit).exhausted,
        advanced(state, rows, limit).upper_bound == state.upper_bound,
{
}

/// What a page does to the cursor: the bound stays; a page with rows moves the cursor
/// to the last of them; and the export is exhausted once it was, or once a page is
/// empty, is shorter than its limit or ends at the bound.
pub proof fn pages_move_the_cursor(
    state: &mut SnapshotCursor,
    rows: &Vec<HydratedPage>,
    limit: u32,
)
    requires
        call_ensures(SnapshotCursor::advance, (state, rows, limit), ()),
    ensures
        final(state)@.upper_bound == old(state)@.upper_bound,
        rows@.len() == 0 ==> final(state)@.cursor == old(state)@.cursor && final(state)@.exhausted,
        rows@.len() > 0 ==> final(state)@.cursor == Some(rows@.last()@.row_id),
        rows@.len() > 0 ==> (final(state)@.exhausted <==> {
            ||| old(state)@.exhausted
            ||| rows@.len() < limit
            ||| old(state)@.upper_bound == Some(rows@.last()@.row_id)
        }),
{
}

/// An export begins before its first row and goes up to the highest row that its
/// snapshot shows. Without rows it is exhausted from the start; otherwise its first
/// page is read from the start up to that row.
pub proof fn exports_begin_at_the_start(
    shown: Option<i64>,
    result: Result<SnapshotCursor, String>,
    bounds: Option<PageBounds>,
)
    requires
        call_ensures(SnapshotCursor::begin, (shown,), result),
        result matches Ok(state) ==> call_ensures(SnapshotCursor::next_bounds, (&state,), bounds),
    ensures
        result is Ok <==> (shown matches Some(row) ==> row > 0),
        result matches Ok(state) ==> state@.cursor is None,
        shown is None ==> bounds is None && result->Ok_0@.exhausted,
        shown matches Some(row) ==> row > 0 ==> {
            &&& !result->Ok_0@.exhausted
            &&& bounds matches Some(bounds) && bounds.after == 0 && bounds.up_to == row
        },
{
}

/// The next page is read after the last row that was returned and up to the bound of
/// the export, and none is read once the export is exhausted.
pub proof fn pages_are_read_after_the_cursor(
    state: &SnapshotCursor,
    bounds: Option<PageBounds>,
    cursor: Option<RowId>,
    bound: Option<RowId>,
    exhausted: bool,
    start: i64,
)
    requires
        call_ensures(SnapshotCursor::next_bounds, (state,), bounds),
        call_ensures(SnapshotCursor::cursor, (state,), cursor),
        call_ensures(SnapshotCursor::upper_bound, (state,), bound),
        call_ensures(SnapshotCursor::is_exhausted, (state,), exhausted),
        call_ensures(page_start, (cursor,), start),
    ensures
        bounds is None <==> exhausted,
        bounds matches Some(bounds) ==> {
            &&& bounds.after == start
            &&& bound is Some && bound->0@ == bounds.up_to
        },
        cursor is None ==> start == 0,
        cursor is Some ==> start == cursor->0@,
{
}

} // verus!
