//! Validated text attributes of the Dovecote domain.
//!
//! Each attribute pairs the validated `dovecote` value with the text that the
//! value holds, and is viewed as that text. The contracts say which texts the
//! domain accepts and how it words a refusal.

use crate::extension::{find_undecodable, undecodable};
use vstd::prelude::*;
use vstd::utf8::encode_utf8;

verus! {

#[verifier::external_type_specification]
#[verifier::external_body]
pub struct ExStreamName(dovecote::StreamName);

#[verifier::external_type_specification]
#[verifier::external_body]
pub struct ExEventId(dovecote::EventId);

#[verifier::external_type_specification]
#[verifier::external_body]
pub struct ExEventSource(dovecote::EventSource);

#[verifier::external_type_specification]
#[verifier::external_body]
pub struct ExEventType(dovecote::EventType);

#[verifier::external_type_specification]
#[verifier::external_body]
pub struct ExEventSubject(dovecote::EventSubject);

#[verifier::external_type_specification]
#[verifier::external_body]
pub struct ExContentType(dovecote::ContentType);

#[verifier::external_type_specification]
#[verifier::external_body]
pub struct ExSchemaUri(dovecote::SchemaUri);

#[verifier::external_type_specification]
#[verifier::external_body]
pub struct ExPartitionKey(dovecote::PartitionKey);

#[verifier::external_type_specification]
#[verifier::external_body]
pub struct ExExtensions(dovecote::Extensions);

#[verifier::external_type_specification]
#[verifier::external_body]
pub struct ExTenantId(dovecote::TenantId);

#[verifier::external_type_specification]
#[verifier::external_body]
pub struct ExWorkerId(dovecote::WorkerId);

#[verifier::external_type_specification]
#[verifier::external_body]
pub struct ExQuarantineReason(dovecote::QuarantineReason);

/// A value of the domain that holds a text.
pub trait DomainText {
    /// The text that the value holds.
    spec fn spelling(&self) -> Seq<char>;
}

/// The text of a stream name: what its `as_str` shows.
pub uninterp spec fn stream_name_text(value: dovecote::StreamName) -> Seq<char>;

impl DomainText for dovecote::StreamName {
    open spec fn spelling(&self) -> Seq<char> {
        stream_name_text(*self)
    }
}

/// The text of an event identifier: what its `as_str` shows.
pub uninterp spec fn event_id_text(value: dovecote::EventId) -> Seq<char>;

impl DomainText for dovecote::EventId {
    open spec fn spelling(&self) -> Seq<char> {
        event_id_text(*self)
    }
}

/// The text of an event source: what its `as_str` shows.
pub uninterp spec fn event_source_text(value: dovecote::EventSource) -> Seq<char>;

impl DomainText for dovecote::EventSource {
    open spec fn spelling(&self) -> Seq<char> {
        event_source_text(*self)
    }
}

/// The text of an event type: what its `as_str` shows.
pub uninterp spec fn event_type_text(value: dovecote::EventType) -> Seq<char>;

impl DomainText for dovecote::EventType {
    open spec fn spelling(&self) -> Seq<char> {
        event_type_text(*self)
    }
}

/// The text of a subject: what its `as_str` shows.
pub uninterp spec fn event_subject_text(value: dovecote::EventSubject) -> Seq<char>;

impl DomainText for dovecote::EventSubject {
    open spec fn spelling(&self) -> Seq<char> {
        event_subject_text(*self)
    }
}

/// The text of a media type: what its `as_str` shows.
pub uninterp spec fn content_type_text(value: dovecote::ContentType) -> Seq<char>;

impl DomainText for dovecote::ContentType {
    open spec fn spelling(&self) -> Seq<char> {
        content_type_text(*self)
    }
}

/// The text of a schema URI: what its `as_str` shows.
pub uninterp spec fn schema_uri_text(value: dovecote::SchemaUri) -> Seq<char>;

impl DomainText for dovecote::SchemaUri {
    open spec fn spelling(&self) -> Seq<char> {
        schema_uri_text(*self)
    }
}

/// The text of a partition key: what its `as_str` shows.
pub uninterp spec fn partition_key_text(value: dovecote::PartitionKey) -> Seq<char>;

impl DomainText for dovecote::PartitionKey {
    open spec fn spelling(&self) -> Seq<char> {
        partition_key_text(*self)
    }
}

/// The text of an extension set: what its `canonical_json` shows.
pub uninterp spec fn extensions_text(value: dovecote::Extensions) -> Seq<char>;

impl DomainText for dovecote::Extensions {
    open spec fn spelling(&self) -> Seq<char> {
        extensions_text(*self)
    }
}

/// The text of a tenant identity: what its `as_str` shows.
pub uninterp spec fn tenant_id_text(value: dovecote::TenantId) -> Seq<char>;

impl DomainText for dovecote::TenantId {
    open spec fn spelling(&self) -> Seq<char> {
        tenant_id_text(*self)
    }
}

/// The text of a worker identity: what its `as_str` shows.
pub uninterp spec fn worker_id_text(value: dovecote::WorkerId) -> Seq<char>;

impl DomainText for dovecote::WorkerId {
    open spec fn spelling(&self) -> Seq<char> {
        worker_id_text(*self)
    }
}

/// The text of a quarantine reason: what its `as_str` shows.
pub uninterp spec fn quarantine_reason_text(value: dovecote::QuarantineReason) -> Seq<char>;

impl DomainText for dovecote::QuarantineReason {
    open spec fn spelling(&self) -> Seq<char> {
        quarantine_reason_text(*self)
    }
}

/// A validated value of the domain and the text that it holds.
#[derive(Debug)]
pub struct Attribute<T: DomainText> {
    text: String,
    value: T,
}

impl<T: DomainText> View for Attribute<T> {
    type V = Seq<char>;

    closed spec fn view(&self) -> Seq<char> {
        self.text@
    }
}

impl<T: DomainText> Attribute<T> {
    #[verifier::type_invariant]
    closed spec fn agrees(self) -> bool {
        self.value.spelling() == self.text@
    }

    /// The text of the attribute.
    pub fn as_str(&self) -> (text: &str)
        ensures
            text@ == self@,
    {
        self.text.as_str()
    }

    /// The text of the attribute and the domain value that holds it.
    pub fn into_parts(self) -> (parts: (String, T))
        ensures
            parts.0@ == self@,
            parts.1.spelling() == self@,
    {
        proof {
            use_type_invariant(&self);
        }
        (self.text, self.value)
    }
}

/// Keeps the text of a validated value beside it.
fn attribute<T: DomainText>(text: &str, validation: Result<T, String>) -> (result: Result<
    Attribute<T>,
    String,
>)
    requires
        validation matches Ok(value) ==> value.spelling() == text@,
    ensures
        match validation {
            Ok(_) => result matches Ok(attribute) && attribute@ == text@,
            Err(error) => result == Err::<Attribute<T>, String>(error),
        },
{
    match validation {
        Ok(value) => Ok(Attribute { text: text.to_owned(), value }),
        Err(error) => Err(error),
    }
}

/// Whether the domain forbids a character in its texts: control characters and
/// Unicode noncharacters.
pub open spec fn is_forbidden(character: char) -> bool {
    let code = character as int;
    ||| code < 0x20
    ||| 0x7f <= code < 0xa0
    ||| 0xfdd0 <= code <= 0xfdef
    ||| code % 0x10000 == 0xfffe
    ||| code % 0x10000 == 0xffff
}

/// Why a text of at most `maximum` UTF-8 bytes is refused, if it is.
pub open spec fn bounded_text_error(field: Seq<char>, value: Seq<char>, maximum: nat) -> Option<
    Seq<char>,
> {
    if value.len() == 0 {
        Some(field + ": must not be empty"@)
    } else if encode_utf8(value).len() > maximum {
        Some(field + ": has an invalid byte length"@)
    } else if exists|i: int| 0 <= i < value.len() && is_forbidden(#[trigger] value[i]) {
        Some(field + ": contains forbidden characters"@)
    } else {
        None
    }
}

/// Whether a character is an ASCII letter or digit.
pub open spec fn is_ascii_alphanumeric(character: char) -> bool {
    ||| '0' <= character && character <= '9'
    ||| 'A' <= character && character <= 'Z'
    ||| 'a' <= character && character <= 'z'
}

/// Whether a character may stand in a stream name.
pub open spec fn is_stream_character(character: char) -> bool {
    is_ascii_alphanumeric(character) || character == '.' || character == '_' || character == '-'
}

/// Why a stream name is refused, if it is.
pub open spec fn stream_name_error(value: Seq<char>) -> Option<Seq<char>> {
    match bounded_text_error("stream"@, value, 255) {
        Some(error) => Some(error),
        None => if is_ascii_alphanumeric(value[0]) && forall|i: int|
            0 <= i < value.len() ==> is_stream_character(#[trigger] value[i]) {
            None
        } else {
            Some("stream: contains forbidden characters"@)
        },
    }
}

/// Whether a character is Unicode white space that is not a control character.
pub open spec fn is_blank(character: char) -> bool {
    let code = character as int;
    ||| code == 0x20
    ||| code == 0xa0
    ||| code == 0x1680
    ||| 0x2000 <= code <= 0x200a
    ||| code == 0x2028
    ||| code == 0x2029
    ||| code == 0x202f
    ||| code == 0x205f
    ||| code == 0x3000
}

/// Why a tenant identity is refused, if it is.
pub open spec fn tenant_id_error(value: Seq<char>) -> Option<Seq<char>> {
    match bounded_text_error("tenant id"@, value, 255) {
        Some(error) => Some(error),
        None => if forall|i: int| 0 <= i < value.len() ==> is_blank(#[trigger] value[i]) {
            Some("tenant id: must not be empty"@)
        } else {
            None
        },
    }
}

/// Whether a text is an RFC 3986 URI reference, as the domain's parser sees it.
pub uninterp spec fn is_uri_reference(value: Seq<char>) -> bool;

/// Why an event source is refused, if it is.
pub open spec fn event_source_error(value: Seq<char>) -> Option<Seq<char>> {
    match bounded_text_error("source"@, value, 2048) {
        Some(error) => Some(error),
        None => if is_uri_reference(value) {
            None
        } else {
            Some("source: has invalid syntax"@)
        },
    }
}

/// Whether a text is an absolute RFC 3986 URI, as the domain's parser sees it.
pub uninterp spec fn is_absolute_uri(value: Seq<char>) -> bool;

/// Why a schema URI is refused, if it is.
pub open spec fn schema_uri_error(value: Seq<char>) -> Option<Seq<char>> {
    match bounded_text_error("schema URI"@, value, 2048) {
        Some(error) => Some(error),
        None => if is_absolute_uri(value) {
            None
        } else {
            Some("URI: has invalid syntax"@)
        },
    }
}

/// Whether a text is a media type, as the domain's parser sees it.
pub uninterp spec fn is_media_type(value: Seq<char>) -> bool;

/// Why a content type is refused, if it is.
pub open spec fn content_type_error(value: Seq<char>) -> Option<Seq<char>> {
    match bounded_text_error("datacontenttype"@, value, 255) {
        Some(error) => Some(error),
        None => if is_media_type(value) {
            None
        } else {
            Some("datacontenttype: must be a valid media type"@)
        },
    }
}

/// Why a durable extension set is refused, if it is: the message of the first
/// problem with its JSON, a name, a typed value, the trace context or the
/// canonical rendering.
pub uninterp spec fn extensions_error(value: Seq<char>) -> Option<Seq<char>>;

/// Why a stored extension set is refused, if it is: it may not be handed to the
/// domain at all, or the domain refuses it.
pub open spec fn extensions_refusal(value: Seq<char>) -> Option<Seq<char>> {
    match undecodable(value) {
        Some(reason) => Some(reason),
        None => extensions_error(value),
    }
}

/// Whether a validation handed back the text it was given, or the refusal that
/// `refusal` words.
pub open spec fn validated<T: DomainText>(
    value: Seq<char>,
    refusal: Option<Seq<char>>,
    result: Result<Attribute<T>, String>,
) -> bool {
    match result {
        Ok(attribute) => refusal is None && attribute@ == value,
        Err(error) => refusal == Some(error@),
    }
}

/// `dovecote::StreamName::new`: the routing grammar of stream names.
#[verifier::external_body]
fn domain_stream_name(value: &str) -> (result: Result<dovecote::StreamName, String>)
    ensures
        match result {
            Ok(domain) => stream_name_error(value@) is None && stream_name_text(domain) == value@,
            Err(error) => stream_name_error(value@) == Some(error@),
        },
{
    dovecote::StreamName::new(value).map_err(|error| error.to_string())
}

/// Validates a text as `dovecote::StreamName`.
pub(crate) fn stream_name(value: &str) -> (result: Result<Attribute<dovecote::StreamName>, String>)
    ensures
        validated(value@, stream_name_error(value@), result),
{
    attribute(value, domain_stream_name(value))
}

/// `dovecote::EventId::new`: a bounded text of at most 1024 bytes.
#[verifier::external_body]
fn domain_event_id(value: &str) -> (result: Result<dovecote::EventId, String>)
    ensures
        match result {
            Ok(domain) => {
                &&& bounded_text_error("event id"@, value@, 1024) is None
                &&& event_id_text(domain) == value@
            },
            Err(error) => bounded_text_error("event id"@, value@, 1024) == Some(error@),
        },
{
    dovecote::EventId::new(value).map_err(|error| error.to_string())
}

/// Validates a text as `dovecote::EventId`.
pub(crate) fn event_id(value: &str) -> (result: Result<Attribute<dovecote::EventId>, String>)
    ensures
        validated(value@, bounded_text_error("event id"@, value@, 1024), result),
{
    attribute(value, domain_event_id(value))
}

/// `dovecote::EventSource::new`: a bounded URI reference of at most 2048 bytes.
/// The URI grammar itself is named, not stated.
#[verifier::external_body]
fn domain_event_source(value: &str) -> (result: Result<dovecote::EventSource, String>)
    ensures
        match result {
            Ok(domain) => event_source_error(value@) is None && event_source_text(domain) == value@,
            Err(error) => event_source_error(value@) == Some(error@),
        },
        result is Ok ==> is_uri_reference(value@),
{
    dovecote::EventSource::new(value).map_err(|error| error.to_string())
}

/// Validates a text as `dovecote::EventSource`.
pub(crate) fn event_source(value: &str) -> (result: Result<
    Attribute<dovecote::EventSource>,
    String,
>)
    ensures
        validated(value@, event_source_error(value@), result),
{
    attribute(value, domain_event_source(value))
}

/// `dovecote::EventType::new`: a bounded text of at most 1024 bytes.
#[verifier::external_body]
fn domain_event_type(value: &str) -> (result: Result<dovecote::EventType, String>)
    ensures
        match result {
            Ok(domain) => {
                &&& bounded_text_error("event type"@, value@, 1024) is None
                &&& event_type_text(domain) == value@
            },
            Err(error) => bounded_text_error("event type"@, value@, 1024) == Some(error@),
        },
{
    dovecote::EventType::new(value).map_err(|error| error.to_string())
}

/// Validates a text as `dovecote::EventType`.
pub(crate) fn event_type(value: &str) -> (result: Result<Attribute<dovecote::EventType>, String>)
    ensures
        validated(value@, bounded_text_error("event type"@, value@, 1024), result),
{
    attribute(value, domain_event_type(value))
}

/// `dovecote::EventSubject::new`: a bounded text of at most 2048 bytes.
#[verifier::external_body]
fn domain_event_subject(value: &str) -> (result: Result<dovecote::EventSubject, String>)
    ensures
        match result {
            Ok(domain) => {
                &&& bounded_text_error("subject"@, value@, 2048) is None
                &&& event_subject_text(domain) == value@
            },
            Err(error) => bounded_text_error("subject"@, value@, 2048) == Some(error@),
        },
{
    dovecote::EventSubject::new(value).map_err(|error| error.to_string())
}

/// Validates a text as `dovecote::EventSubject`.
pub(crate) fn event_subject(value: &str) -> (result: Result<
    Attribute<dovecote::EventSubject>,
    String,
>)
    ensures
        validated(value@, bounded_text_error("subject"@, value@, 2048), result),
{
    attribute(value, domain_event_subject(value))
}

/// `dovecote::ContentType::new`: a bounded media type of at most 255 bytes. The
/// media-type grammar itself is named, not stated.
#[verifier::external_body]
fn domain_content_type(value: &str) -> (result: Result<dovecote::ContentType, String>)
    ensures
        match result {
            Ok(domain) => content_type_error(value@) is None && content_type_text(domain) == value@,
            Err(error) => content_type_error(value@) == Some(error@),
        },
        result is Ok ==> is_media_type(value@),
{
    dovecote::ContentType::new(value).map_err(|error| error.to_string())
}

/// Validates a text as `dovecote::ContentType`.
pub(crate) fn content_type(value: &str) -> (result: Result<
    Attribute<dovecote::ContentType>,
    String,
>)
    ensures
        validated(value@, content_type_error(value@), result),
{
    attribute(value, domain_content_type(value))
}

/// `dovecote::SchemaUri::new`: a bounded absolute URI of at most 2048 bytes. The
/// URI grammar itself is named, not stated.
#[verifier::external_body]
fn domain_schema_uri(value: &str) -> (result: Result<dovecote::SchemaUri, String>)
    ensures
        match result {
            Ok(domain) => schema_uri_error(value@) is None && schema_uri_text(domain) == value@,
            Err(error) => schema_uri_error(value@) == Some(error@),
        },
        result is Ok ==> is_absolute_uri(value@),
{
    dovecote::SchemaUri::new(value).map_err(|error| error.to_string())
}

/// Validates a text as `dovecote::SchemaUri`.
pub(crate) fn schema_uri(value: &str) -> (result: Result<Attribute<dovecote::SchemaUri>, String>)
    ensures
        validated(value@, schema_uri_error(value@), result),
{
    attribute(value, domain_schema_uri(value))
}

/// `dovecote::PartitionKey::new`: a bounded text of at most 255 bytes.
#[verifier::external_body]
fn domain_partition_key(value: &str) -> (result: Result<dovecote::PartitionKey, String>)
    ensures
        match result {
            Ok(domain) => {
                &&& bounded_text_error("partition key"@, value@, 255) is None
                &&& partition_key_text(domain) == value@
            },
            Err(error) => bounded_text_error("partition key"@, value@, 255) == Some(error@),
        },
{
    dovecote::PartitionKey::new(value).map_err(|error| error.to_string())
}

/// Validates a text as `dovecote::PartitionKey`.
pub(crate) fn partition_key(value: &str) -> (result: Result<
    Attribute<dovecote::PartitionKey>,
    String,
>)
    ensures
        validated(value@, bounded_text_error("partition key"@, value@, 255), result),
{
    attribute(value, domain_partition_key(value))
}

/// `dovecote::Extensions::from_canonical_json`: decodes a durable extension set.
/// Which texts are canonical, and how a refusal is worded, is named, not stated.
/// The domain renders every timestamp in UTC and panics on one that has no
/// rendering, so texts with such a timestamp, and texts that could hide one in an
/// embedded JSON text, are left out.
#[verifier::external_body]
fn domain_extensions(value: &str) -> (result: Result<dovecote::Extensions, String>)
    requires
        undecodable(value@) is None,
    ensures
        match result {
            Ok(domain) => extensions_error(value@) is None && extensions_text(domain) == value@,
            Err(error) => extensions_error(value@) == Some(error@),
        },
{
    dovecote::Extensions::from_canonical_json(value).map_err(|error| error.to_string())
}

/// Validates a text as `dovecote::Extensions`.
pub(crate) fn extensions(value: &str) -> (result: Result<Attribute<dovecote::Extensions>, String>)
    ensures
        validated(value@, extensions_refusal(value@), result),
{
    match find_undecodable(value) {
        Some(reason) => Err(reason.to_owned()),
        None => attribute(value, domain_extensions(value)),
    }
}

/// `dovecote::TenantId::new`: a bounded text of at most 255 bytes that is not
/// white space alone.
#[verifier::external_body]
fn domain_tenant_id(value: &str) -> (result: Result<dovecote::TenantId, String>)
    ensures
        match result {
            Ok(domain) => tenant_id_error(value@) is None && tenant_id_text(domain) == value@,
            Err(error) => tenant_id_error(value@) == Some(error@),
        },
{
    dovecote::TenantId::new(value).map_err(|error| error.to_string())
}

/// Validates a text as `dovecote::TenantId`.
pub(crate) fn tenant_id(value: &str) -> (result: Result<Attribute<dovecote::TenantId>, String>)
    ensures
        validated(value@, tenant_id_error(value@), result),
{
    attribute(value, domain_tenant_id(value))
}

/// `dovecote::WorkerId::new`: a bounded text of at most 255 bytes.
#[verifier::external_body]
fn domain_worker_id(value: &str) -> (result: Result<dovecote::WorkerId, String>)
    ensures
        match result {
            Ok(domain) => {
                &&& bounded_text_error("worker_id"@, value@, 255) is None
                &&& worker_id_text(domain) == value@
            },
            Err(error) => bounded_text_error("worker_id"@, value@, 255) == Some(error@),
        },
{
    dovecote::WorkerId::new(value).map_err(|error| error.to_string())
}

/// Validates a text as `dovecote::WorkerId`.
pub(crate) fn worker_id(value: &str) -> (result: Result<Attribute<dovecote::WorkerId>, String>)
    ensures
        validated(value@, bounded_text_error("worker_id"@, value@, 255), result),
{
    attribute(value, domain_worker_id(value))
}

/// `dovecote::WorkerId::clone`: a copy of a worker identity.
#[verifier::external_body]
fn domain_worker_id_copy(worker: &dovecote::WorkerId) -> (copy: dovecote::WorkerId)
    ensures
        worker_id_text(copy) == worker_id_text(*worker),
{
    worker.clone()
}

/// A copy of a worker identity.
pub(crate) fn worker_id_copy(worker: &Attribute<dovecote::WorkerId>) -> (copy: Attribute<
    dovecote::WorkerId,
>)
    ensures
        copy@ == worker@,
{
    proof {
        use_type_invariant(worker);
    }
    Attribute { text: worker.text.clone(), value: domain_worker_id_copy(&worker.value) }
}

/// Validates the identity of a worker.
pub fn worker(value: &str) -> (result: Result<Attribute<dovecote::WorkerId>, String>)
    ensures
        validated(value@, bounded_text_error("worker_id"@, value@, 255), result),
{
    worker_id(value)
}

/// `dovecote::QuarantineReason::new`: a bounded text of at most 2048 bytes.
#[verifier::external_body]
fn domain_quarantine_reason(value: &str) -> (result: Result<dovecote::QuarantineReason, String>)
    ensures
        match result {
            Ok(domain) => {
                &&& bounded_text_error("quarantine reason"@, value@, 2048) is None
                &&& quarantine_reason_text(domain) == value@
            },
            Err(error) => bounded_text_error("quarantine reason"@, value@, 2048) == Some(error@),
        },
{
    dovecote::QuarantineReason::new(value).map_err(|error| error.to_string())
}

/// Validates a text as `dovecote::QuarantineReason`.
pub(crate) fn quarantine_reason(value: &str) -> (result: Result<
    Attribute<dovecote::QuarantineReason>,
    String,
>)
    ensures
        validated(value@, bounded_text_error("quarantine reason"@, value@, 2048), result),
{
    attribute(value, domain_quarantine_reason(value))
}

/// A worker is accepted exactly if its name is not empty, takes at most 255 bytes of
/// UTF-8 and holds no character that the domain forbids, and keeps its name.
pub proof fn workers_keep_their_name(
    value: &str,
    result: Result<Attribute<dovecote::WorkerId>, String>,
)
    requires
        call_ensures(worker, (value,), result),
    ensures
        result is Ok <==> {
            &&& value@.len() > 0
            &&& encode_utf8(value@).len() <= 255
            &&& forall|i: int| 0 <= i < value@.len() ==> !is_forbidden(#[trigger] value@[i])
        },
        result matches Ok(worker) ==> worker@ == value@,
{
}

/// A tenant is accepted exactly if its identity takes at most 255 bytes of UTF-8,
/// holds no character that the domain forbids and is not white space alone.
pub proof fn tenants_are_not_blank(value: Seq<char>)
    ensures
        tenant_id_error(value) is None <==> {
            &&& encode_utf8(value).len() <= 255
            &&& forall|i: int| 0 <= i < value.len() ==> !is_forbidden(#[trigger] value[i])
            &&& exists|i: int| 0 <= i < value.len() && !is_blank(#[trigger] value[i])
        },
{
}

/// A stream is accepted exactly if it begins with an ASCII letter or digit, goes on
/// with these, dots, underscores and hyphens, and takes at most 255 bytes.
pub proof fn streams_are_plain_names(value: Seq<char>)
    ensures
        stream_name_error(value) is None <==> {
            &&& value.len() > 0
            &&& encode_utf8(value).len() <= 255
            &&& is_ascii_alphanumeric(value[0])
            &&& forall|i: int|
                0 <= i < value.len() ==> is_ascii_alphanumeric(#[trigger] value[i]) || value[i]
                    == '.' || value[i] == '_' || value[i] == '-'
        },
{
    if value.len() > 0 && (forall|i: int|
        0 <= i < value.len() ==> is_stream_character(#[trigger] value[i])) {
        assert forall|i: int| 0 <= i < value.len() implies !is_forbidden(#[trigger] value[i]) by {
            assert(is_stream_character(value[i]));
        }
    }
    if stream_name_error(value) is None {
        assert forall|i: int| 0 <= i < value.len() implies is_ascii_alphanumeric(
            #[trigger] value[i],
        ) || value[i] == '.' || value[i] == '_' || value[i] == '-' by {
            assert(is_stream_character(value[i]));
        }
    }
}

} // verus!
