//! Instants as plain integers, and their stored RFC 3339 rendering.

use crate::text::same_text;
use time::format_description::well_known::Rfc3339;
use vstd::prelude::*;

verus! {

/// First nanosecond of the supported calendar, 1 January of year -9999.
pub const EARLIEST_NANOS: i128 = -377_705_116_800_000_000_000;

/// Last nanosecond of the supported calendar, at the end of year 9999.
pub const LATEST_NANOS: i128 = 253_402_300_799_999_999_999;

/// First nanosecond of year 0, before which RFC 3339 has no rendering.
pub const EARLIEST_RENDERED_NANOS: i128 = -62_167_219_200_000_000_000;

/// Last whole microsecond of year 9999, the last portable instant.
pub const LATEST_PORTABLE_NANOS: i128 = 253_402_300_799_999_999_000;

/// A point in time, counted in nanoseconds from the Unix epoch and viewed as
/// that number. Its value never leaves the years -9999 to 9999.
#[derive(Clone, Copy, Debug)]
pub struct Instant {
    pub(crate) nanos: i128,
}

impl View for Instant {
    type V = int;

    closed spec fn view(&self) -> int {
        self.nanos as int
    }
}

impl Instant {
    #[verifier::type_invariant]
    closed spec fn in_calendar(self) -> bool {
        EARLIEST_NANOS <= self.nanos <= LATEST_NANOS
    }

    /// The instant that many nanoseconds after the Unix epoch, if the calendar
    /// reaches it.
    pub fn from_unix_nanos(nanos: i128) -> (instant: Option<Instant>)
        ensures
            match instant {
                Some(at) => at@ == nanos && EARLIEST_NANOS <= nanos <= LATEST_NANOS,
                None => nanos < EARLIEST_NANOS || nanos > LATEST_NANOS,
            },
    {
        if EARLIEST_NANOS <= nanos && nanos <= LATEST_NANOS {
            Some(Instant { nanos })
        } else {
            None
        }
    }

    /// Nanoseconds since the Unix epoch.
    pub fn unix_nanos(self) -> (nanos: i128)
        ensures
            nanos == self@,
            EARLIEST_NANOS <= nanos <= LATEST_NANOS,
    {
        proof {
            use_type_invariant(&self);
        }
        self.nanos
    }

    /// Whether both instants are the same.
    pub fn same(self, other: Instant) -> (same: bool)
        ensures
            same == (self@ == other@),
    {
        self.nanos == other.nanos
    }

    /// Whether this instant is `other` or lies before it.
    pub fn not_after(self, other: Instant) -> (ordered: bool)
        ensures
            ordered == (self@ <= other@),
    {
        self.nanos <= other.nanos
    }

    /// Whether RFC 3339 can render this instant.
    pub fn has_rendering(self) -> (rendered: bool)
        ensures
            rendered == (self@ >= EARLIEST_RENDERED_NANOS),
    {
        self.nanos >= EARLIEST_RENDERED_NANOS
    }
}

/// The view of an optional instant.
pub open spec fn optional_instant(value: Option<Instant>) -> Option<int> {
    match value {
        Some(at) => Some(at@),
        None => None,
    }
}

/// Whether two optional instants are both absent, or both present and the same.
pub fn same_optional_instant(left: Option<Instant>, right: Option<Instant>) -> (same: bool)
    ensures
        same == (optional_instant(left) == optional_instant(right)),
{
    match (left, right) {
        (Some(left), Some(right)) => left.same(right),
        (None, None) => true,
        _ => false,
    }
}

/// Why an instant is not portable, if it is not: portable instants lie between
/// the Unix epoch and the end of year 9999 and count whole microseconds.
pub open spec fn instant_error(field: Seq<char>, at: int) -> Option<Seq<char>> {
    if at < 0 || at > LATEST_PORTABLE_NANOS {
        Some(field + ": is outside the supported range"@)
    } else if at % 1000 != 0 {
        Some(field + ": has unsupported precision"@)
    } else {
        None
    }
}

/// What reading a text as RFC 3339 yields: nanoseconds since the Unix epoch, or
/// the parser's complaint.
pub uninterp spec fn rfc3339_reading(text: Seq<char>) -> Result<int, Seq<char>>;

/// `time::OffsetDateTime::parse` with the RFC 3339 format. The result depends on
/// the text alone; the instant is given in nanoseconds, whatever offset the text
/// names, and a failure is given by its message.
#[verifier::external_body]
pub(crate) fn read_rfc3339(text: &str) -> (reading: Result<i128, String>)
    ensures
        match reading {
            Ok(nanos) => rfc3339_reading(text@) == Ok::<int, Seq<char>>(nanos as int),
            Err(complaint) => rfc3339_reading(text@) == Err::<int, Seq<char>>(complaint@),
        },
{
    time::OffsetDateTime::parse(text, &Rfc3339)
        .map(|at| at.unix_timestamp_nanos())
        .map_err(|error| error.to_string())
}

/// The RFC 3339 rendering of an instant in UTC.
pub uninterp spec fn rfc3339_rendering(nanos: int) -> Seq<char>;

/// `time::OffsetDateTime::format` with the RFC 3339 format, on an instant in
/// UTC. The rendering depends on the instant alone, and reading it back yields
/// that instant: all nine fractional digits that are not trailing zeros are
/// written. Instants before year 0 have no rendering and are left out.
#[verifier::external_body]
fn render_rfc3339(at: Instant) -> (text: String)
    requires
        at@ >= EARLIEST_RENDERED_NANOS,
    ensures
        text@ == rfc3339_rendering(at@),
        rfc3339_reading(text@) is Ok && rfc3339_reading(text@)->Ok_0 == at@,
{
    time::OffsetDateTime::from_unix_timestamp_nanos(at.nanos)
        .expect("the instant lies in the calendar")
        .format(&Rfc3339)
        .expect("the instant is RFC 3339 representable")
}

/// What a stored timestamp denotes, or why it denotes nothing.
pub open spec fn stored_instant(text: Seq<char>) -> Result<int, Seq<char>> {
    match rfc3339_reading(text) {
        Ok(nanos) => if EARLIEST_NANOS <= nanos <= LATEST_NANOS {
            Ok(nanos)
        } else {
            Err("invalid stored timestamp: outside the supported calendar"@)
        },
        Err(complaint) => Err("invalid stored timestamp: "@ + complaint),
    }
}

/// Whether the rendering of an instant denotes that instant. It does for every
/// instant that [`format_timestamp`] renders.
pub open spec fn renders_back(at: int) -> bool {
    stored_instant(rfc3339_rendering(at)) == Ok::<int, Seq<char>>(at)
}

/// Different instants have different renderings.
pub proof fn renderings_are_distinct(left: int, right: int)
    requires
        renders_back(left),
        renders_back(right),
        left != right,
    ensures
        rfc3339_rendering(left) != rfc3339_rendering(right),
{
}

/// Reads a stored RFC 3339 timestamp.
pub fn parse_timestamp(value: &str) -> (parsed: Result<Instant, String>)
    ensures
        match parsed {
            Ok(at) => stored_instant(value@) == Ok::<int, Seq<char>>(at@),
            Err(detail) => stored_instant(value@) == Err::<int, Seq<char>>(detail@),
        },
{
    match read_rfc3339(value) {
        Ok(nanos) => parsed_instant(nanos),
        Err(complaint) => Err("invalid stored timestamp: ".to_owned().concat(complaint.as_str())),
    }
}

/// Accepts the nanoseconds that a stored timestamp denotes, if the calendar
/// reaches them.
pub fn parsed_instant(nanos: i128) -> (parsed: Result<Instant, String>)
    ensures
        match parsed {
            Ok(at) => at@ == nanos && EARLIEST_NANOS <= nanos <= LATEST_NANOS,
            Err(detail) => {
                &&& nanos < EARLIEST_NANOS || nanos > LATEST_NANOS
                &&& detail@ == "invalid stored timestamp: outside the supported calendar"@
            },
        },
{
    match Instant::from_unix_nanos(nanos) {
        Some(at) => Ok(at),
        None => Err("invalid stored timestamp: outside the supported calendar".to_owned()),
    }
}

/// Renders an instant as it is stored.
pub fn format_timestamp(value: Instant) -> (text: String)
    requires
        value@ >= EARLIEST_RENDERED_NANOS,
    ensures
        text@ == rfc3339_rendering(value@),
        renders_back(value@),
{
    proof {
        use_type_invariant(&value);
    }
    render_rfc3339(value)
}

/// Whether a stored timestamp is the rendering of an instant.
pub fn renders(text: &str, at: Instant) -> (same: bool)
    requires
        at@ >= EARLIEST_RENDERED_NANOS,
    ensures
        same == (text@ == rfc3339_rendering(at@)),
{
    let rendered = format_timestamp(at);
    same_text(text, rendered.as_str())
}

/// An instant is portable exactly if it counts whole microseconds from the Unix
/// epoch on, up to the last one of year 9999.
pub proof fn portable_instants_are_whole_microseconds(field: Seq<char>, at: int)
    ensures
        instant_error(field, at) is None <==> exists|microseconds: int|
            0 <= microseconds <= 253_402_300_799_999_999 && #[trigger] (microseconds * 1000) == at,
{
    if instant_error(field, at) is None {
        let microseconds = at / 1000;
        assert(microseconds * 1000 == at);
    }
}

/// An instant comes back as the nanoseconds that it was made of, exactly if the
/// calendar from year -9999 to year 9999 reaches them.
pub proof fn instants_keep_their_nanoseconds(
    nanos: i128,
    instant: Option<Instant>,
    read: i128,
    parsed: Result<Instant, String>,
)
    requires
        call_ensures(Instant::from_unix_nanos, (nanos,), instant),
        instant matches Some(at) ==> call_ensures(Instant::unix_nanos, (at,), read),
        call_ensures(parsed_instant, (nanos,), parsed),
    ensures
        instant is Some <==> -377_705_116_800_000_000_000 <= nanos
            <= 253_402_300_799_999_999_999,
        instant is Some ==> read == nanos,
        parsed is Ok <==> instant is Some,
        parsed is Ok ==> parsed->Ok_0@ == nanos,
{
}

/// Instants are compared by their nanoseconds.
pub proof fn instants_are_compared_by_nanoseconds(
    left: Instant,
    right: Instant,
    same: bool,
    ordered: bool,
    both: bool,
)
    requires
        call_ensures(Instant::same, (left, right), same),
        call_ensures(Instant::not_after, (left, right), ordered),
        call_ensures(same_optional_instant, (Some(left), Some(right)), both),
    ensures
        same <==> left@ == right@,
        ordered <==> left@ <= right@,
        both <==> left@ == right@,
{
}

/// A stored text is read as the instant that RFC 3339 gives it, and a rendered
/// instant is read back as itself.
pub proof fn timestamps_are_read_as_they_were_written(
    at: Instant,
    written: String,
    text: &str,
    parsed: Result<Instant, String>,
)
    requires
        at@ >= EARLIEST_RENDERED_NANOS,
        call_ensures(format_timestamp, (at,), written),
        text@ == written@,
        call_ensures(parse_timestamp, (text,), parsed),
    ensures
        parsed is Ok,
        parsed->Ok_0@ == at@,
{
}

} // verus!
