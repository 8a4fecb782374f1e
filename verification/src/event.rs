//! Event content and its reconstruction from stored columns.
//!
//! The library reads events as plain values, [`EventContent`]. The domain's own
//! builder runs beside it: a [`HydratedEvent`] holds the plain content together
//! with the `dovecote` event that holds the same content.

use crate::attribute::{
    bounded_text_error, content_type, content_type_error, content_type_text, event_id,
    event_id_text, event_source, event_source_error, event_source_text, event_subject,
    event_subject_text, event_type, event_type_text, extensions, extensions_refusal, extensions_text,
    partition_key, partition_key_text, schema_uri, schema_uri_error, schema_uri_text, stream_name,
    stream_name_error, stream_name_text, Attribute,
};
use crate::instant::{instant_error, optional_instant, Instant};
use crate::text::{
    optional_bytes, optional_text, same_bytes, same_optional_text, same_text,
};
use vstd::prelude::*;
use vstd::utf8::encode_utf8;

verus! {

#[verifier::external_type_specification]
#[verifier::external_body]
pub struct ExNewEventBuilder(dovecote::NewEventBuilder);

#[verifier::external_type_specification]
#[verifier::external_body]
pub struct ExStoredEvent(dovecote::StoredEvent);

/// Event data: JSON text or opaque bytes.
#[derive(Debug)]
pub enum EventData {
    /// Bytes that hold one JSON value encoded as UTF-8.
    Json(Vec<u8>),
    /// Opaque bytes.
    Binary(Vec<u8>),
}

/// The plain values of an event.
#[derive(Debug)]
pub struct EventContent {
    /// Routing stream.
    pub stream: String,
    /// CloudEvents event ID.
    pub event_id: String,
    /// CloudEvents source.
    pub source: String,
    /// CloudEvents type.
    pub event_type: String,
    /// Optional CloudEvents subject.
    pub subject: Option<String>,
    /// Optional occurrence time.
    pub time: Option<Instant>,
    /// Optional media type of the data.
    pub datacontenttype: Option<String>,
    /// Optional schema URI.
    pub dataschema: Option<String>,
    /// Optional partition key.
    pub partitionkey: Option<String>,
    /// Extension set in its canonical JSON form.
    pub extensions: String,
    /// Optional data.
    pub data: Option<EventData>,
}

/// The mathematical content of an event. Data is viewed as its bytes and
/// whether they are JSON.
pub ghost struct EventView {
    pub stream: Seq<char>,
    pub event_id: Seq<char>,
    pub source: Seq<char>,
    pub event_type: Seq<char>,
    pub subject: Option<Seq<char>>,
    pub time: Option<int>,
    pub datacontenttype: Option<Seq<char>>,
    pub dataschema: Option<Seq<char>>,
    pub partitionkey: Option<Seq<char>>,
    pub extensions: Seq<char>,
    pub data: Option<(bool, Seq<u8>)>,
}

impl View for EventContent {
    type V = EventView;

    open spec fn view(&self) -> EventView {
        EventView {
            stream: self.stream@,
            event_id: self.event_id@,
            source: self.source@,
            event_type: self.event_type@,
            subject: optional_text(self.subject),
            time: optional_instant(self.time),
            datacontenttype: optional_text(self.datacontenttype),
            dataschema: optional_text(self.dataschema),
            partitionkey: optional_text(self.partitionkey),
            extensions: self.extensions@,
            data: match self.data {
                Some(EventData::Json(bytes)) => Some((true, bytes@)),
                Some(EventData::Binary(bytes)) => Some((false, bytes@)),
                None => None,
            },
        }
    }
}

/// Whether a media type is JSON or has a `+json` suffix.
pub uninterp spec fn is_json_media_type(value: Seq<char>) -> bool;

/// Why otherwise valid parts do not make an event, if they do not: the identity
/// may be too long, the time not portable, or data and media type at odds.
pub open spec fn event_error(event: EventView) -> Option<Seq<char>> {
    if encode_utf8(event.source).len() + encode_utf8(event.event_id).len() > 2048 {
        Some("source and event id: has an invalid byte length"@)
    } else if event.time is Some && instant_error("time"@, event.time->0) is Some {
        instant_error("time"@, event.time->0)
    } else if event.data is Some && (event.data->0).1.len() > 0 && event.datacontenttype is None {
        Some("datacontenttype: is invalid in combination with another value"@)
    } else if event.data is Some && (event.data->0).0 && !(event.datacontenttype is Some
        && is_json_media_type(event.datacontenttype->0)) {
        Some("datacontenttype: is invalid in combination with another value"@)
    } else {
        None
    }
}

/// Whether bytes hold exactly one JSON value encoded as UTF-8.
pub uninterp spec fn is_json_text(bytes: Seq<u8>) -> bool;

/// What the domain's builder holds so far.
pub uninterp spec fn builder_content(builder: dovecote::NewEventBuilder) -> EventView;

/// What an event of the domain holds: what its accessors show.
pub uninterp spec fn event_content(event: dovecote::StoredEvent) -> EventView;

/// `dovecote::NewEvent::builder`: starts an event from its required attributes,
/// with nothing else set and no extensions.
#[verifier::external_body]
fn event_builder(
    stream: dovecote::StreamName,
    id: dovecote::EventId,
    source: dovecote::EventSource,
    kind: dovecote::EventType,
) -> (builder: dovecote::NewEventBuilder)
    ensures
        builder_content(builder) == (EventView {
            stream: stream_name_text(stream),
            event_id: event_id_text(id),
            source: event_source_text(source),
            event_type: event_type_text(kind),
            subject: None,
            time: None,
            datacontenttype: None,
            dataschema: None,
            partitionkey: None,
            extensions: "{}"@,
            data: None,
        }),
{
    dovecote::NewEvent::builder(stream, id, source, kind)
}

/// `dovecote::NewEventBuilder::subject`: sets the subject and nothing else.
#[verifier::external_body]
fn with_subject(builder: dovecote::NewEventBuilder, subject: dovecote::EventSubject) -> (next:
    dovecote::NewEventBuilder)
    ensures
        builder_content(next) == (EventView {
            subject: Some(event_subject_text(subject)),
            ..builder_content(builder)
        }),
{
    builder.subject(subject)
}

/// `dovecote::NewEventBuilder::time`: sets the occurrence time and nothing else.
/// The domain keeps the instant and normalizes its offset to UTC.
#[verifier::external_body]
fn with_time(builder: dovecote::NewEventBuilder, time: Instant) -> (next:
    dovecote::NewEventBuilder)
    ensures
        builder_content(next) == (EventView { time: Some(time@), ..builder_content(builder) }),
{
    let value = time::OffsetDateTime::from_unix_timestamp_nanos(time.nanos)
        .expect("the instant lies in the calendar");
    builder.time(value)
}

/// `dovecote::NewEventBuilder::datacontenttype`: sets the media type and nothing
/// else.
#[verifier::external_body]
fn with_datacontenttype(builder: dovecote::NewEventBuilder, kind: dovecote::ContentType) -> (next:
    dovecote::NewEventBuilder)
    ensures
        builder_content(next) == (EventView {
            datacontenttype: Some(content_type_text(kind)),
            ..builder_content(builder)
        }),
{
    builder.datacontenttype(kind)
}

/// `dovecote::NewEventBuilder::dataschema`: sets the schema URI and nothing else.
#[verifier::external_body]
fn with_dataschema(builder: dovecote::NewEventBuilder, schema: dovecote::SchemaUri) -> (next:
    dovecote::NewEventBuilder)
    ensures
        builder_content(next) == (EventView {
            dataschema: Some(schema_uri_text(schema)),
            ..builder_content(builder)
        }),
{
    builder.dataschema(schema)
}

/// `dovecote::NewEventBuilder::partitionkey`: sets the partition key and nothing
/// else.
#[verifier::external_body]
fn with_partitionkey(builder: dovecote::NewEventBuilder, key: dovecote::PartitionKey) -> (next:
    dovecote::NewEventBuilder)
    ensures
        builder_content(next) == (EventView {
            partitionkey: Some(partition_key_text(key)),
            ..builder_content(builder)
        }),
{
    builder.partitionkey(key)
}

/// `dovecote::NewEventBuilder::extensions`: replaces the extension set and
/// nothing else.
#[verifier::external_body]
fn with_extensions(builder: dovecote::NewEventBuilder, set: dovecote::Extensions) -> (next:
    dovecote::NewEventBuilder)
    ensures
        builder_content(next) == (EventView {
            extensions: extensions_text(set),
            ..builder_content(builder)
        }),
{
    builder.extensions(set)
}

/// `dovecote::EventData::json` and `dovecote::NewEventBuilder::data`: sets JSON data
/// and nothing else, if the bytes are one JSON value. The JSON grammar itself is
/// named, not stated.
#[verifier::external_body]
fn with_json_data(builder: dovecote::NewEventBuilder, bytes: Vec<u8>) -> (result: Result<
    dovecote::NewEventBuilder,
    String,
>)
    ensures
        match result {
            Ok(next) => is_json_text(bytes@) && builder_content(next) == (EventView {
                data: Some((true, bytes@)),
                ..builder_content(builder)
            }),
            Err(error) => !is_json_text(bytes@) && error@ == json_data_refusal(),
        },
{
    match dovecote::EventData::json(bytes) {
        Ok(data) => Ok(builder.data(data)),
        Err(error) => Err(error.to_string()),
    }
}

/// `dovecote::EventData::binary` and `dovecote::NewEventBuilder::data`: sets opaque
/// data and nothing else.
#[verifier::external_body]
fn with_binary_data(builder: dovecote::NewEventBuilder, bytes: Vec<u8>) -> (next:
    dovecote::NewEventBuilder)
    ensures
        builder_content(next) == (EventView {
            data: Some((false, bytes@)),
            ..builder_content(builder)
        }),
{
    builder.data(dovecote::EventData::binary(bytes))
}

/// `dovecote::NewEventBuilder::build_with_limit` without a size limit and
/// `dovecote::NewEvent::into_stored`: checks the parts against each other. The
/// extension set is one that decodes from its canonical form, so its trace context
/// was checked before.
#[verifier::external_body]
fn built_event(builder: dovecote::NewEventBuilder) -> (result: Result<
    dovecote::StoredEvent,
    String,
>)
    requires
        extensions_refusal(builder_content(builder).extensions) is None,
    ensures
        match result {
            Ok(event) => event_error(builder_content(builder)) is None && event_content(event)
                == builder_content(builder),
            Err(error) => event_error(builder_content(builder)) == Some(error@),
        },
        result is Ok && builder_content(builder).data is Some && (builder_content(
            builder,
        ).data->0).0 ==> is_json_media_type(builder_content(builder).datacontenttype->0),
{
    let limit = dovecote::EventSizeLimit::new(usize::MAX).expect("the limit is not zero");
    match builder.build_with_limit(limit).and_then(dovecote::NewEvent::into_stored) {
        Ok(event) => Ok(event),
        Err(error) => Err(error.to_string()),
    }
}

/// An event under construction: plain content and the domain's builder, which
/// holds the same content.
pub struct EventDraft {
    content: EventContent,
    builder: dovecote::NewEventBuilder,
}

impl View for EventDraft {
    type V = EventView;

    closed spec fn view(&self) -> EventView {
        self.content@
    }
}

impl EventDraft {
    #[verifier::type_invariant]
    closed spec fn agrees(self) -> bool {
        builder_content(self.builder) == self.content@
    }

    /// Starts an event from its required attributes, with nothing else set.
    fn new(
        stream: Attribute<dovecote::StreamName>,
        id: Attribute<dovecote::EventId>,
        source: Attribute<dovecote::EventSource>,
        kind: Attribute<dovecote::EventType>,
    ) -> (draft: EventDraft)
        ensures
            draft@ == (EventView {
                stream: stream@,
                event_id: id@,
                source: source@,
                event_type: kind@,
                subject: None,
                time: None,
                datacontenttype: None,
                dataschema: None,
                partitionkey: None,
                extensions: "{}"@,
                data: None,
            }),
    {
        let (stream, name) = stream.into_parts();
        let (event_id, id) = id.into_parts();
        let (source, origin) = source.into_parts();
        let (event_type, kind) = kind.into_parts();
        let content = EventContent {
            stream,
            event_id,
            source,
            event_type,
            subject: None,
            time: None,
            datacontenttype: None,
            dataschema: None,
            partitionkey: None,
            extensions: "{}".to_owned(),
            data: None,
        };
        EventDraft { content, builder: event_builder(name, id, origin, kind) }
    }

    /// Sets the subject.
    fn subject(self, subject: Attribute<dovecote::EventSubject>) -> (draft: EventDraft)
        ensures
            draft@ == (EventView { subject: Some(subject@), ..self@ }),
    {
        proof {
            use_type_invariant(&self);
        }
        let (text, value) = subject.into_parts();
        let builder = with_subject(self.builder, value);
        let content = EventContent { subject: Some(text), ..self.content };
        EventDraft { content, builder }
    }

    /// Sets the occurrence time.
    pub(crate) fn time(self, time: Instant) -> (draft: EventDraft)
        ensures
            draft@ == (EventView { time: Some(time@), ..self@ }),
    {
        proof {
            use_type_invariant(&self);
        }
        let builder = with_time(self.builder, time);
        let content = EventContent { time: Some(time), ..self.content };
        EventDraft { content, builder }
    }

    /// Sets the media type.
    fn datacontenttype(self, kind: Attribute<dovecote::ContentType>) -> (draft: EventDraft)
        ensures
            draft@ == (EventView { datacontenttype: Some(kind@), ..self@ }),
    {
        proof {
            use_type_invariant(&self);
        }
        let (text, value) = kind.into_parts();
        let builder = with_datacontenttype(self.builder, value);
        let content = EventContent { datacontenttype: Some(text), ..self.content };
        EventDraft { content, builder }
    }

    /// Sets the schema URI.
    fn dataschema(self, schema: Attribute<dovecote::SchemaUri>) -> (draft: EventDraft)
        ensures
            draft@ == (EventView { dataschema: Some(schema@), ..self@ }),
    {
        proof {
            use_type_invariant(&self);
        }
        let (text, value) = schema.into_parts();
        let builder = with_dataschema(self.builder, value);
        let content = EventContent { dataschema: Some(text), ..self.content };
        EventDraft { content, builder }
    }

    /// Sets the partition key.
    fn partitionkey(self, key: Attribute<dovecote::PartitionKey>) -> (draft: EventDraft)
        ensures
            draft@ == (EventView { partitionkey: Some(key@), ..self@ }),
    {
        proof {
            use_type_invariant(&self);
        }
        let (text, value) = key.into_parts();
        let builder = with_partitionkey(self.builder, value);
        let content = EventContent { partitionkey: Some(text), ..self.content };
        EventDraft { content, builder }
    }

    /// Replaces the extension set.
    fn extensions(self, set: Attribute<dovecote::Extensions>) -> (draft: EventDraft)
        ensures
            draft@ == (EventView { extensions: set@, ..self@ }),
    {
        proof {
            use_type_invariant(&self);
        }
        let (text, value) = set.into_parts();
        let builder = with_extensions(self.builder, value);
        let content = EventContent { extensions: text, ..self.content };
        EventDraft { content, builder }
    }

    /// Sets JSON data, if the bytes are one JSON value.
    fn json_data(self, bytes: Vec<u8>) -> (result: Result<EventDraft, String>)
        ensures
            match result {
                Ok(draft) => is_json_text(bytes@) && draft@ == (EventView {
                    data: Some((true, bytes@)),
                    ..self@
                }),
                Err(error) => !is_json_text(bytes@) && error@ == json_data_refusal(),
            },
    {
        proof {
            use_type_invariant(&self);
        }
        match with_json_data(self.builder, copied(&bytes)) {
            Ok(builder) => {
                let content = EventContent { data: Some(EventData::Json(bytes)), ..self.content };
                Ok(EventDraft { content, builder })
            },
            Err(error) => Err(error),
        }
    }

    /// Sets opaque data.
    fn binary_data(self, bytes: Vec<u8>) -> (draft: EventDraft)
        ensures
            draft@ == (EventView { data: Some((false, bytes@)), ..self@ }),
    {
        proof {
            use_type_invariant(&self);
        }
        let builder = with_binary_data(self.builder, copied(&bytes));
        let content = EventContent { data: Some(EventData::Binary(bytes)), ..self.content };
        EventDraft { content, builder }
    }

    /// Checks the parts against each other and finishes the event.
    fn build(self) -> (result: Result<HydratedEvent, String>)
        requires
            extensions_refusal(self@.extensions) is None,
        ensures
            match result {
                Ok(event) => event_error(self@) is None && event@ == self@,
                Err(error) => event_error(self@) == Some(error@),
            },
    {
        proof {
            use_type_invariant(&self);
        }
        match built_event(self.builder) {
            Ok(event) => Ok(HydratedEvent { content: self.content, event }),
            Err(error) => Err(error),
        }
    }
}

/// How the domain refuses data that is not JSON.
pub open spec fn json_data_refusal() -> Seq<char> {
    "JSON data: must contain one valid JSON value encoded as UTF-8"@
}

/// A validated event: plain content and the domain's event, which holds the same
/// content.
#[derive(Debug)]
pub struct HydratedEvent {
    content: EventContent,
    event: dovecote::StoredEvent,
}

impl View for HydratedEvent {
    type V = EventView;

    closed spec fn view(&self) -> EventView {
        self.content@
    }
}

impl HydratedEvent {
    #[verifier::type_invariant]
    closed spec fn agrees(self) -> bool {
        event_content(self.event) == self.content@
    }

    /// The plain content of the event.
    pub fn content(&self) -> (content: &EventContent)
        ensures
            content@ == self@,
    {
        &self.content
    }

    /// The plain content and the domain's event, which holds it.
    pub fn into_parts(self) -> (parts: (EventContent, dovecote::StoredEvent))
        ensures
            parts.0@ == self@,
            event_content(parts.1) == self@,
    {
        proof {
            use_type_invariant(&self);
        }
        (self.content, self.event)
    }
}

/// The stored columns of an event, but for its occurrence time, which the two
/// databases store differently.
#[derive(Debug)]
pub struct EventColumns {
    pub stream: String,
    pub specversion: String,
    pub event_id: String,
    pub source: String,
    pub event_type: String,
    pub subject: Option<String>,
    pub datacontenttype: Option<String>,
    pub dataschema: Option<String>,
    pub partitionkey: Option<String>,
    pub extensions: String,
    pub data_kind: Option<String>,
    pub data: Option<Vec<u8>>,
}

/// The mathematical content of [`EventColumns`].
pub ghost struct ColumnsView {
    pub stream: Seq<char>,
    pub specversion: Seq<char>,
    pub event_id: Seq<char>,
    pub source: Seq<char>,
    pub event_type: Seq<char>,
    pub subject: Option<Seq<char>>,
    pub datacontenttype: Option<Seq<char>>,
    pub dataschema: Option<Seq<char>>,
    pub partitionkey: Option<Seq<char>>,
    pub extensions: Seq<char>,
    pub data_kind: Option<Seq<char>>,
    pub data: Option<Seq<u8>>,
}

impl View for EventColumns {
    type V = ColumnsView;

    open spec fn view(&self) -> ColumnsView {
        ColumnsView {
            stream: self.stream@,
            specversion: self.specversion@,
            event_id: self.event_id@,
            source: self.source@,
            event_type: self.event_type@,
            subject: optional_text(self.subject),
            datacontenttype: optional_text(self.datacontenttype),
            dataschema: optional_text(self.dataschema),
            partitionkey: optional_text(self.partitionkey),
            extensions: self.extensions@,
            data_kind: optional_text(self.data_kind),
            data: optional_bytes(self.data),
        }
    }
}

/// The columns under which an event is stored, its time aside.
pub open spec fn stored_columns(event: EventView) -> ColumnsView {
    ColumnsView {
        stream: event.stream,
        specversion: "1.0"@,
        event_id: event.event_id,
        source: event.source,
        event_type: event.event_type,
        subject: event.subject,
        datacontenttype: event.datacontenttype,
        dataschema: event.dataschema,
        partitionkey: event.partitionkey,
        extensions: event.extensions,
        data_kind: match event.data {
            Some(data) => Some(
                if data.0 {
                    "json"@
                } else {
                    "binary"@
                },
            ),
            None => None,
        },
        data: match event.data {
            Some(data) => Some(data.1),
            None => None,
        },
    }
}

/// The columns under which an event is stored, its time aside.
pub fn event_columns(event: &EventContent) -> (columns: EventColumns)
    ensures
        columns@ == stored_columns(event@),
{
    let (data_kind, data) = match &event.data {
        Some(EventData::Json(bytes)) => (Some("json".to_owned()), Some(copied(bytes))),
        Some(EventData::Binary(bytes)) => (Some("binary".to_owned()), Some(copied(bytes))),
        None => (None, None),
    };
    EventColumns {
        stream: event.stream.clone(),
        specversion: "1.0".to_owned(),
        event_id: event.event_id.clone(),
        source: event.source.clone(),
        event_type: event.event_type.clone(),
        subject: copied_text(&event.subject),
        datacontenttype: copied_text(&event.datacontenttype),
        dataschema: copied_text(&event.dataschema),
        partitionkey: copied_text(&event.partitionkey),
        extensions: event.extensions.clone(),
        data_kind,
        data,
    }
}

fn copied(bytes: &Vec<u8>) -> (copy: Vec<u8>)
    ensures
        copy@ == bytes@,
{
    let copy = bytes.clone();
    assert(copy@ =~= bytes@);
    copy
}

pub(crate) fn copied_bytes(bytes: &Option<Vec<u8>>) -> (copy: Option<Vec<u8>>)
    ensures
        optional_bytes(copy) == optional_bytes(*bytes),
{
    match bytes {
        Some(bytes) => Some(copied(bytes)),
        None => None,
    }
}

pub(crate) fn copied_text(text: &Option<String>) -> (copy: Option<String>)
    ensures
        optional_text(copy) == optional_text(*text),
{
    match text {
        Some(text) => Some(text.clone()),
        None => None,
    }
}

/// Whether an event and stored columns hold the same immutable content, the
/// occurrence time aside.
pub fn same_columns(event: &EventContent, existing: &EventColumns) -> (same: bool)
    ensures
        same == (existing@ == stored_columns(event@)),
{
    let ghost expected = stored_columns(event@);
    let same_data = match (&event.data, &existing.data_kind, &existing.data) {
        (Some(EventData::Json(bytes)), Some(kind), Some(stored)) => {
            same_text(kind.as_str(), "json") && same_bytes(bytes.as_slice(), stored.as_slice())
        },
        (Some(EventData::Binary(bytes)), Some(kind), Some(stored)) => {
            same_text(kind.as_str(), "binary") && same_bytes(bytes.as_slice(), stored.as_slice())
        },
        (None, None, None) => true,
        _ => false,
    };
    assert(same_data == (existing@.data_kind == expected.data_kind && existing@.data
        == expected.data));
    same_text(event.stream.as_str(), existing.stream.as_str()) && same_text(
        existing.specversion.as_str(),
        "1.0",
    ) && same_text(event.event_id.as_str(), existing.event_id.as_str()) && same_text(
        event.source.as_str(),
        existing.source.as_str(),
    ) && same_text(event.event_type.as_str(), existing.event_type.as_str()) && same_optional_text(
        &event.subject,
        &existing.subject,
    ) && same_optional_text(&event.datacontenttype, &existing.datacontenttype)
        && same_optional_text(&event.dataschema, &existing.dataschema) && same_optional_text(
        &event.partitionkey,
        &existing.partitionkey,
    ) && same_text(event.extensions.as_str(), existing.extensions.as_str()) && same_data
}

/// The first of two refusals.
pub open spec fn first_refusal(first: Option<Seq<char>>, second: Option<Seq<char>>) -> Option<
    Seq<char>,
> {
    if first is Some {
        first
    } else {
        second
    }
}

/// Why an optional bounded attribute is refused, if it is.
pub open spec fn optional_refusal(
    value: Option<Seq<char>>,
    refusal: spec_fn(Seq<char>) -> Option<Seq<char>>,
) -> Option<Seq<char>> {
    match value {
        Some(text) => refusal(text),
        None => None,
    }
}

/// Why the columns up to the subject are refused, if they are.
pub open spec fn leading_refusal(columns: ColumnsView) -> Option<Seq<char>> {
    if columns.specversion != "1.0"@ {
        Some("stored event has an unsupported specversion"@)
    } else {
        first_refusal(
            stream_name_error(columns.stream),
            first_refusal(
                bounded_text_error("event id"@, columns.event_id, 1024),
                first_refusal(
                    event_source_error(columns.source),
                    first_refusal(
                        bounded_text_error("event type"@, columns.event_type, 1024),
                        optional_refusal(
                            columns.subject,
                            |text: Seq<char>| bounded_text_error("subject"@, text, 2048),
                        ),
                    ),
                ),
            ),
        )
    }
}

/// Why the data columns are refused, if they are.
pub open spec fn data_refusal(columns: ColumnsView) -> Option<Seq<char>> {
    match (columns.data_kind, columns.data) {
        (None, None) => None,
        (Some(kind), Some(bytes)) => if kind == "json"@ {
            if is_json_text(bytes) {
                None
            } else {
                Some(json_data_refusal())
            }
        } else if kind == "binary"@ {
            None
        } else {
            Some("stored data kind and data columns do not agree"@)
        },
        _ => Some("stored data kind and data columns do not agree"@),
    }
}

/// Why the columns after the occurrence time are refused, if they are.
pub open spec fn trailing_refusal(columns: ColumnsView) -> Option<Seq<char>> {
    first_refusal(
        optional_refusal(columns.datacontenttype, |text: Seq<char>| content_type_error(text)),
        first_refusal(
            optional_refusal(columns.dataschema, |text: Seq<char>| schema_uri_error(text)),
            first_refusal(
                optional_refusal(
                    columns.partitionkey,
                    |text: Seq<char>| bounded_text_error("partition key"@, text, 255),
                ),
                first_refusal(extensions_refusal(columns.extensions), data_refusal(columns)),
            ),
        ),
    )
}

/// The event that stored columns and an occurrence time spell.
pub open spec fn spelled_event(columns: ColumnsView, time: Option<int>) -> EventView {
    EventView {
        stream: columns.stream,
        event_id: columns.event_id,
        source: columns.source,
        event_type: columns.event_type,
        subject: columns.subject,
        time,
        datacontenttype: columns.datacontenttype,
        dataschema: columns.dataschema,
        partitionkey: columns.partitionkey,
        extensions: columns.extensions,
        data: match (columns.data_kind, columns.data) {
            (Some(kind), Some(bytes)) => Some((kind == "json"@, bytes)),
            _ => None,
        },
    }
}

/// What stored columns and the outcome of reading the occurrence time yield:
/// the event that they spell, or the first refusal in the order of validation.
pub open spec fn hydration(
    columns: ColumnsView,
    time: Result<Option<int>, Seq<char>>,
) -> Result<EventView, Seq<char>> {
    match leading_refusal(columns) {
        Some(error) => Err(error),
        None => match time {
            Err(error) => Err(error),
            Ok(time) => match first_refusal(
                trailing_refusal(columns),
                event_error(spelled_event(columns, time)),
            ) {
                Some(error) => Err(error),
                None => Ok(spelled_event(columns, time)),
            },
        },
    }
}

/// Whether a hydration result is the one that `expected` describes.
pub open spec fn hydrated(
    expected: Result<EventView, Seq<char>>,
    result: Result<HydratedEvent, String>,
) -> bool {
    match result {
        Ok(event) => expected == Ok::<EventView, Seq<char>>(event@),
        Err(error) => expected == Err::<EventView, Seq<char>>(error@),
    }
}

/// Whether an event satisfies every rule that hydration applies: to each
/// attribute, to the data and to the parts together.
pub open spec fn is_valid_event(event: EventView) -> bool {
    &&& leading_refusal(stored_columns(event)) is None
    &&& trailing_refusal(stored_columns(event)) is None
    &&& event_error(event) is None
}

/// Hydrating the stored columns of a valid event gives back the event.
pub proof fn stored_events_read_back(event: EventView)
    requires
        is_valid_event(event),
    ensures
        hydration(stored_columns(event), Ok(event.time)) == Ok::<EventView, Seq<char>>(event),
{
    reveal_strlit("json");
    reveal_strlit("binary");
    assert("json"@[0] == 'j' && "binary"@[0] == 'b');
    assert(spelled_event(stored_columns(event), event.time) == event);
}

/// Hydration yields only valid events, and each is stored under the columns that
/// it was hydrated from.
pub proof fn hydrated_events_store_back(
    columns: ColumnsView,
    time: Option<int>,
    event: EventView,
)
    requires
        hydration(columns, Ok(time)) == Ok::<EventView, Seq<char>>(event),
    ensures
        is_valid_event(event),
        stored_columns(event) == columns,
        event.time == time,
{
    reveal_strlit("json");
    reveal_strlit("binary");
    assert("json"@[0] == 'j' && "binary"@[0] == 'b');
    assert(stored_columns(event) == columns);
}

/// The draft that the columns up to the subject begin.
pub open spec fn begun_event(columns: ColumnsView) -> EventView {
    EventView {
        stream: columns.stream,
        event_id: columns.event_id,
        source: columns.source,
        event_type: columns.event_type,
        subject: columns.subject,
        time: None,
        datacontenttype: None,
        dataschema: None,
        partitionkey: None,
        extensions: "{}"@,
        data: None,
    }
}

/// Validates the columns up to the subject.
pub(crate) fn begin_event(row: &EventColumns) -> (result: Result<EventDraft, String>)
    ensures
        match result {
            Ok(draft) => leading_refusal(row@) is None && draft@ == begun_event(row@),
            Err(error) => leading_refusal(row@) == Some(error@),
        },
{
    if !same_text(row.specversion.as_str(), "1.0") {
        return Err("stored event has an unsupported specversion".to_owned());
    }
    let stream = match stream_name(row.stream.as_str()) {
        Ok(stream) => stream,
        Err(error) => return Err(error),
    };
    let id = match event_id(row.event_id.as_str()) {
        Ok(id) => id,
        Err(error) => return Err(error),
    };
    let source = match event_source(row.source.as_str()) {
        Ok(source) => source,
        Err(error) => return Err(error),
    };
    let kind = match event_type(row.event_type.as_str()) {
        Ok(kind) => kind,
        Err(error) => return Err(error),
    };
    let draft = EventDraft::new(stream, id, source, kind);
    match &row.subject {
        Some(value) => match event_subject(value.as_str()) {
            Ok(subject) => Ok(draft.subject(subject)),
            Err(error) => Err(error),
        },
        None => Ok(draft),
    }
}

/// Validates the columns after the occurrence time and finishes the event.
pub(crate) fn finish_event(draft: EventDraft, row: &EventColumns) -> (result: Result<
    HydratedEvent,
    String,
>)
    requires
        leading_refusal(row@) is None,
        draft@ == (EventView { time: draft@.time, ..begun_event(row@) }),
    ensures
        hydrated(hydration(row@, Ok(draft@.time)), result),
{
    let ghost time = draft@.time;
    let mut draft = draft;
    if let Some(value) = &row.datacontenttype {
        match content_type(value.as_str()) {
            Ok(kind) => {
                draft = draft.datacontenttype(kind);
            },
            Err(error) => return Err(error),
        }
    }
    if let Some(value) = &row.dataschema {
        match schema_uri(value.as_str()) {
            Ok(schema) => {
                draft = draft.dataschema(schema);
            },
            Err(error) => return Err(error),
        }
    }
    if let Some(value) = &row.partitionkey {
        match partition_key(value.as_str()) {
            Ok(key) => {
                draft = draft.partitionkey(key);
            },
            Err(error) => return Err(error),
        }
    }
    match extensions(row.extensions.as_str()) {
        Ok(set) => {
            draft = draft.extensions(set);
        },
        Err(error) => return Err(error),
    }
    match (&row.data_kind, &row.data) {
        (None, None) => {},
        (Some(kind), Some(bytes)) => {
            if same_text(kind.as_str(), "json") {
                match draft.json_data(copied(bytes)) {
                    Ok(filled) => {
                        draft = filled;
                    },
                    Err(error) => return Err(error),
                }
            } else if same_text(kind.as_str(), "binary") {
                proof {
                    reveal_strlit("json");
                    reveal_strlit("binary");
                }
                draft = draft.binary_data(copied(bytes));
            } else {
                return Err("stored data kind and data columns do not agree".to_owned());
            }
        },
        _ => return Err("stored data kind and data columns do not agree".to_owned()),
    }
    assert(draft@ == spelled_event(row@, time));
    draft.build()
}

/// Whether columns hold an event: every attribute in its own column, JSON data
/// marked as `json`, other data marked as `binary`, and no data as no mark and no
/// bytes.
pub open spec fn hold_event(columns: EventColumns, event: EventContent) -> bool {
    &&& columns.stream@ == event.stream@
    &&& columns.specversion@ == "1.0"@
    &&& columns.event_id@ == event.event_id@
    &&& columns.source@ == event.source@
    &&& columns.event_type@ == event.event_type@
    &&& optional_text(columns.subject) == optional_text(event.subject)
    &&& optional_text(columns.datacontenttype) == optional_text(event.datacontenttype)
    &&& optional_text(columns.dataschema) == optional_text(event.dataschema)
    &&& optional_text(columns.partitionkey) == optional_text(event.partitionkey)
    &&& columns.extensions@ == event.extensions@
    &&& match event.data {
        Some(EventData::Json(bytes)) => optional_text(columns.data_kind) == Some("json"@)
            && optional_bytes(columns.data) == Some(bytes@),
        Some(EventData::Binary(bytes)) => optional_text(columns.data_kind) == Some("binary"@)
            && optional_bytes(columns.data) == Some(bytes@),
        None => columns.data_kind is None && columns.data is None,
    }
}

/// An event is stored in columns that hold it, and an event and stored columns count
/// as the same exactly if the columns hold the event.
pub proof fn events_are_stored_column_by_column(
    event: &EventContent,
    written: EventColumns,
    existing: &EventColumns,
    same: bool,
)
    requires
        call_ensures(event_columns, (event,), written),
        call_ensures(same_columns, (event, existing), same),
    ensures
        hold_event(written, *event),
        same <==> hold_event(*existing, *event),
{
    reveal_strlit("json");
    reveal_strlit("binary");
    assert("json"@[0] == 'j' && "binary"@[0] == 'b');
}

/// Whether columns and an occurrence time make an event: every attribute within its
/// own rules, data and its mark both there or both absent, JSON data one JSON value
/// under a JSON media type, other data that is not empty under some media type,
/// source and identifier no longer than 2048 bytes together, and a portable time.
pub open spec fn make_event(columns: ColumnsView, time: Option<int>) -> bool {
    &&& columns.specversion == "1.0"@
    &&& stream_name_error(columns.stream) is None
    &&& bounded_text_error("event id"@, columns.event_id, 1024) is None
    &&& event_source_error(columns.source) is None
    &&& bounded_text_error("event type"@, columns.event_type, 1024) is None
    &&& columns.subject is Some ==> bounded_text_error(
        "subject"@,
        columns.subject->0,
        2048,
    ) is None
    &&& columns.datacontenttype is Some ==> content_type_error(columns.datacontenttype->0) is None
    &&& columns.dataschema is Some ==> schema_uri_error(columns.dataschema->0) is None
    &&& columns.partitionkey is Some ==> bounded_text_error(
        "partition key"@,
        columns.partitionkey->0,
        255,
    ) is None
    &&& extensions_refusal(columns.extensions) is None
    &&& columns.data_kind is Some <==> columns.data is Some
    &&& columns.data_kind is Some ==> columns.data_kind->0 == "json"@ || columns.data_kind->0
        == "binary"@
    &&& columns.data_kind is Some && columns.data_kind->0 == "json"@ ==> is_json_text(
        columns.data->0,
    ) && columns.datacontenttype is Some && is_json_media_type(columns.datacontenttype->0)
    &&& columns.data is Some && columns.data->0.len() > 0 ==> columns.datacontenttype is Some
    &&& encode_utf8(columns.source).len() + encode_utf8(columns.event_id).len() <= 2048
    &&& time is Some ==> 0 <= time->0 <= 253_402_300_799_999_999_000 && time->0 % 1000 == 0
}

/// Columns are read as an event exactly if they make one, and the event then shows
/// every column as it was stored.
pub proof fn columns_that_make_an_event_are_read_as_it(columns: ColumnsView, time: Option<int>)
    ensures
        hydration(columns, Ok(time)) is Ok <==> make_event(columns, time),
        hydration(columns, Ok(time)) matches Ok(event) ==> {
            &&& event.stream == columns.stream
            &&& event.event_id == columns.event_id
            &&& event.source == columns.source
            &&& event.event_type == columns.event_type
            &&& event.subject == columns.subject
            &&& event.time == time
            &&& event.datacontenttype == columns.datacontenttype
            &&& event.dataschema == columns.dataschema
            &&& event.partitionkey == columns.partitionkey
            &&& event.extensions == columns.extensions
            &&& columns.data is None ==> event.data is None
            &&& columns.data is Some ==> event.data == Some(
                (columns.data_kind == Some("json"@), columns.data->0),
            )
        },
{
    reveal_strlit("json");
    reveal_strlit("binary");
    assert("json"@[0] == 'j' && "binary"@[0] == 'b');
}

/// Columns whose time could not be read are never read as an event.
pub proof fn unreadable_times_make_no_event(columns: ColumnsView, complaint: Seq<char>)
    ensures
        hydration(columns, Err(complaint)) is Err,
        leading_refusal(columns) is None ==> hydration(columns, Err(complaint)) == Err::<
            EventView,
            Seq<char>,
        >(complaint),
{
}

/// Columns hold an event exactly if they are those that it is stored under.
pub proof fn lemma_holding(columns: EventColumns, event: EventContent)
    ensures
        hold_event(columns, event) <==> columns@ == stored_columns(event@),
{
    reveal_strlit("json");
    reveal_strlit("binary");
    assert("json"@[0] == 'j' && "binary"@[0] == 'b');
}

} // verus!
