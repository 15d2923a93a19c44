//! A fetched mail message and the notification derived from it: header
//! lookup, body search through the multipart tree, body decoding.

use crate::text::{
    concat, eq_ignore_ascii_case, fold_ascii_case, has_prefix, opt_clone, opt_view,
    replace_char, replaced, starts_with, str_eq,
};
use base64::Engine;
use vstd::prelude::*;
use vstd::utf8::*;

verus! {

/// The encoded content of a payload or of one of its parts.
#[derive(Debug)]
pub struct MessageBody {
    pub data: Option<String>,
}

/// One node of the multipart tree.
#[derive(Debug)]
pub struct MessagePart {
    pub mime_type: String,
    pub body: Option<MessageBody>,
    pub parts: Vec<MessagePart>,
}

/// One header line of a message.
#[derive(Debug)]
pub struct Header {
    pub name: String,
    pub value: String,
}

/// The top of the multipart tree, with the message's headers.
#[derive(Debug)]
pub struct MessagePayload {
    pub headers: Vec<Header>,
    pub parts: Vec<MessagePart>,
    pub body: Option<MessageBody>,
}

/// A message as the provider returns it in full format.
#[derive(Debug)]
pub struct Message {
    pub id: String,
    pub thread_id: String,
    pub snippet: Option<String>,
    pub internal_date: Option<String>,
    pub payload: MessagePayload,
}

/// What is shown to the user about one new message.
///
/// `received_at` counts seconds since the Unix epoch, in UTC.
#[derive(Debug)]
pub struct GmailNotification {
    pub id: String,
    pub thread_id: String,
    pub subject: String,
    pub snippet: Option<String>,
    pub sender: Option<String>,
    pub recipient: Option<String>,
    pub received_at: Option<i64>,
    pub url: String,
    pub body: Option<String>,
}

/// The mathematical content of a `GmailNotification`.
pub struct NotificationView {
    pub id: Seq<char>,
    pub thread_id: Seq<char>,
    pub subject: Seq<char>,
    pub snippet: Option<Seq<char>>,
    pub sender: Option<Seq<char>>,
    pub recipient: Option<Seq<char>>,
    pub received_at: Option<i64>,
    pub url: Seq<char>,
    pub body: Option<Seq<char>>,
}

impl View for GmailNotification {
    type V = NotificationView;

    open spec fn view(&self) -> NotificationView {
        NotificationView {
            id: self.id@,
            thread_id: self.thread_id@,
            subject: self.subject@,
            snippet: opt_view(self.snippet),
            sender: opt_view(self.sender),
            recipient: opt_view(self.recipient),
            received_at: self.received_at,
            url: self.url@,
            body: opt_view(self.body),
        }
    }
}

impl Clone for GmailNotification {
    fn clone(&self) -> (r: Self)
        ensures
            r@ == self@,
    {
        GmailNotification {
            id: self.id.clone(),
            thread_id: self.thread_id.clone(),
            subject: self.subject.clone(),
            snippet: opt_clone(&self.snippet),
            sender: opt_clone(&self.sender),
            recipient: opt_clone(&self.recipient),
            received_at: self.received_at,
            url: self.url.clone(),
            body: opt_clone(&self.body),
        }
    }
}

/// The subject given to a message that has no `Subject` header.
pub open spec fn fallback_subject() -> Seq<char> {
    "(без темы)"@
}

/// What precedes the message identifier in a notification's link.
pub open spec fn inbox_url_prefix() -> Seq<char> {
    "https://mail.google.com/mail/u/0/#inbox/"@
}

/// The link that opens a message in the web client.
pub open spec fn spec_message_url(id: Seq<char>) -> Seq<char> {
    inbox_url_prefix() + id
}

/// Computes `spec_message_url`.
pub fn message_url(id: &str) -> (url: String)
    ensures
        url@ == spec_message_url(id@),
{
    concat("https://mail.google.com/mail/u/0/#inbox/", id)
}

// ---------------------------------------------------------------------------
// Headers
// ---------------------------------------------------------------------------

/// The value of the first header whose name equals `name`, ASCII letters
/// taken without regard to case.
pub open spec fn spec_header_value(headers: Seq<Header>, name: Seq<char>) -> Option<Seq<char>>
    decreases headers.len(),
{
    if headers.len() == 0 {
        None
    } else if fold_ascii_case(headers[0].name@) == fold_ascii_case(name) {
        Some(headers[0].value@)
    } else {
        spec_header_value(headers.drop_first(), name)
    }
}

/// Looks a header up by name.
pub fn header_value(headers: &Vec<Header>, name: &str) -> (r: Option<String>)
    ensures
        opt_view(r) == spec_header_value(headers@, name@),
{
    let mut i: usize = 0;
    assert(headers@.skip(0) == headers@);
    while i < headers.len()
        invariant
            i <= headers.len(),
            spec_header_value(headers@, name@) == spec_header_value(
                headers@.skip(i as int),
                name@,
            ),
        decreases headers.len() - i,
    {
        let h = &headers[i];
        if eq_ignore_ascii_case(h.name.as_str(), name) {
            return Some(h.value.clone());
        }
        assert(headers@.skip(i as int).drop_first() == headers@.skip(i + 1));
        i += 1;
    }
    None
}

// ---------------------------------------------------------------------------
// Dates
// ---------------------------------------------------------------------------

/// The instant that an RFC 2822 date denotes, in seconds since the Unix
/// epoch, as `chrono::DateTime::parse_from_rfc2822` reads it; `None` where
/// it rejects the text.
pub uninterp spec fn spec_rfc2822_timestamp(text: Seq<char>) -> Option<i64>;

/// Calls `chrono::DateTime::parse_from_rfc2822`, moves the result to UTC with
/// `DateTime::with_timezone` and takes its `timestamp`. The result depends on
/// the text alone.
#[verifier::external_body]
fn rfc2822_timestamp(text: &str) -> (r: Option<i64>)
    ensures
        r == spec_rfc2822_timestamp(text@),
{
    match chrono::DateTime::parse_from_rfc2822(text) {
        Ok(at) => Some(at.with_timezone(&chrono::Utc).timestamp()),
        Err(_) => None,
    }
}

/// When a message was received, from the value of its `Date` header.
pub open spec fn spec_received_at(date: Option<Seq<char>>) -> Option<i64> {
    match date {
        Some(text) => spec_rfc2822_timestamp(text),
        None => None,
    }
}

/// Computes `spec_received_at`.
pub fn received_at(date: &Option<String>) -> (r: Option<i64>)
    ensures
        r == spec_received_at(opt_view(*date)),
{
    match date {
        Some(text) => rfc2822_timestamp(text.as_str()),
        None => None,
    }
}

// ---------------------------------------------------------------------------
// Body decoding
// ---------------------------------------------------------------------------

/// The bytes that a text in standard, padded base64 encodes, as the engine
/// `base64::engine::general_purpose::STANDARD` decodes it; `None` where it
/// rejects the text.
pub uninterp spec fn spec_base64_decode(data: Seq<char>) -> Option<Seq<u8>>;

/// Calls `Engine::decode` of `base64` on the `STANDARD` engine.
#[verifier::external_body]
fn base64_decode(data: &str) -> (r: Option<Vec<u8>>)
    ensures
        match r {
            Some(bytes) => spec_base64_decode(data@) == Some(bytes@),
            None => spec_base64_decode(data@) is None,
        },
{
    match base64::engine::general_purpose::STANDARD.decode(data) {
        Ok(bytes) => Some(bytes),
        Err(_) => None,
    }
}

/// `String::from_utf8` of the standard library: the text that the bytes
/// encode, where they are valid UTF-8, and nothing where they are not.
#[verifier::external_body]
fn utf8_string(bytes: Vec<u8>) -> (r: Option<String>)
    ensures
        match r {
            Some(s) => valid_utf8(bytes@) && s@ == decode_utf8(bytes@),
            None => !valid_utf8(bytes@),
        },
{
    match String::from_utf8(bytes) {
        Ok(s) => Some(s),
        Err(_) => None,
    }
}

/// Body data with the URL-safe base64 letters turned into the standard ones.
pub open spec fn spec_standard_alphabet(data: Seq<char>) -> Seq<char> {
    replaced(replaced(data, '-', '+'), '_', '/')
}

/// The text of decoded body bytes: absent where decoding failed or the bytes
/// are not UTF-8.
pub open spec fn spec_decoded_text(decoded: Option<Seq<u8>>) -> Option<Seq<char>> {
    match decoded {
        Some(bytes) => if valid_utf8(bytes) {
            Some(decode_utf8(bytes))
        } else {
            None
        },
        None => None,
    }
}

/// The text that body data encodes.
pub open spec fn spec_decode_data(data: Seq<char>) -> Option<Seq<char>> {
    spec_decoded_text(spec_base64_decode(spec_standard_alphabet(data)))
}

/// The text that a body encodes; absent where it has no data.
pub open spec fn spec_decode_body(body: MessageBody) -> Option<Seq<char>> {
    match body.data {
        Some(data) => spec_decode_data(data@),
        None => None,
    }
}

/// Turns decoded body bytes into text.
pub fn decoded_text(decoded: Option<Vec<u8>>) -> (r: Option<String>)
    ensures
        opt_view(r) == spec_decoded_text(
            match decoded {
                Some(bytes) => Some(bytes@),
                None => None,
            },
        ),
{
    match decoded {
        Some(bytes) => utf8_string(bytes),
        None => None,
    }
}

/// Decodes a body: URL-safe base64, then UTF-8. A failure of either gives an
/// absent body.
pub fn decode_body(body: &MessageBody) -> (r: Option<String>)
    ensures
        opt_view(r) == spec_decode_body(*body),
{
    match &body.data {
        Some(data) => {
            let plus = replace_char(data.as_str(), '-', '+');
            let standard = replace_char(plus.as_str(), '_', '/');
            decoded_text(base64_decode(standard.as_str()))
        },
        None => None,
    }
}

// ---------------------------------------------------------------------------
// Body search
// ---------------------------------------------------------------------------

/// Whether a MIME type names a multipart container.
pub open spec fn is_container(mime_type: Seq<char>) -> bool {
    has_prefix(mime_type, "multipart/"@)
}

/// The data that a body carries.
pub open spec fn body_data(body: Option<MessageBody>) -> Option<Seq<char>> {
    match body {
        Some(b) => opt_view(b.data),
        None => None,
    }
}

/// Whether a part is itself an answer to a search for `mime_type`: a leaf of
/// that type with data that is not empty.
pub open spec fn offers(part: MessagePart, mime_type: Seq<char>) -> bool {
    &&& !is_container(part.mime_type@)
    &&& part.mime_type@ == mime_type
    &&& body_data(part.body) matches Some(data)
    &&& data.len() > 0
}

/// The data of the first part, in document order, that answers a search for
/// `mime_type`: a part comes before the parts nested in it, and those before
/// the parts that follow it.
pub open spec fn spec_find_data(parts: Seq<MessagePart>, mime_type: Seq<char>) -> Option<
    Seq<char>,
>
    decreases parts,
{
    if parts.len() == 0 {
        None
    } else if offers(parts[0], mime_type) {
        body_data(parts[0].body)
    } else {
        match spec_find_data(parts[0].parts@, mime_type) {
            Some(data) => Some(data),
            None => spec_find_data(parts.drop_first(), mime_type),
        }
    }
}

fn find_in_parts(parts: &Vec<MessagePart>, mime_type: &str) -> (r: Option<MessageBody>)
    ensures
        body_data(r) == spec_find_data(parts@, mime_type@),
        r is Some ==> body_data(r) is Some,
    decreases parts,
{
    let mut i: usize = 0;
    assert(parts@.skip(0) == parts@);
    while i < parts.len()
        invariant
            i <= parts.len(),
            spec_find_data(parts@, mime_type@) == spec_find_data(
                parts@.skip(i as int),
                mime_type@,
            ),
        decreases parts.len() - i,
    {
        let part = &parts[i];
        assert(parts@.skip(i as int)[0] == parts@[i as int]);
        if !starts_with(part.mime_type.as_str(), "multipart/") && str_eq(
            part.mime_type.as_str(),
            mime_type,
        ) {
            if let Some(body) = &part.body {
                if let Some(data) = &body.data {
                    if !data.as_str().is_empty() {
                        return Some(MessageBody { data: Some(data.clone()) });
                    }
                }
            }
        }
        if part.parts.len() > 0 {
            let nested = find_in_parts(&part.parts, mime_type);
            if nested.is_some() {
                return nested;
            }
        }
        assert(parts@.skip(i as int).drop_first() == parts@.skip(i + 1));
        i += 1;
    }
    None
}

/// Searches the multipart tree of a payload, depth first, for the first leaf
/// of the given MIME type whose data is not empty.
pub fn find_part_by_mime(payload: &MessagePayload, mime_type: &str) -> (r: Option<MessageBody>)
    ensures
        body_data(r) == spec_find_data(payload.parts@, mime_type@),
        r is Some ==> body_data(r) is Some,
{
    find_in_parts(&payload.parts, mime_type)
}

/// The text found for one MIME type: the first answer to the search,
/// decoded.
pub open spec fn spec_found_text(parts: Seq<MessagePart>, mime_type: Seq<char>) -> Option<
    Seq<char>,
> {
    match spec_find_data(parts, mime_type) {
        Some(data) => spec_decode_data(data),
        None => None,
    }
}

/// The body of a message: the HTML text where one is found and decodes, else
/// the plain text, else the text attached to the payload itself.
pub open spec fn spec_extract_body(payload: MessagePayload) -> Option<Seq<char>> {
    if spec_found_text(payload.parts@, "text/html"@) is Some {
        spec_found_text(payload.parts@, "text/html"@)
    } else if spec_found_text(payload.parts@, "text/plain"@) is Some {
        spec_found_text(payload.parts@, "text/plain"@)
    } else {
        match payload.body {
            Some(body) => spec_decode_body(body),
            None => None,
        }
    }
}

/// Extracts the body of a message, HTML before plain text.
pub fn extract_body(payload: &MessagePayload) -> (r: Option<String>)
    ensures
        opt_view(r) == spec_extract_body(*payload),
{
    if let Some(html) = find_part_by_mime(payload, "text/html") {
        let decoded = decode_body(&html);
        if decoded.is_some() {
            return decoded;
        }
    }
    if let Some(text) = find_part_by_mime(payload, "text/plain") {
        let decoded = decode_body(&text);
        if decoded.is_some() {
            return decoded;
        }
    }
    if let Some(body) = &payload.body {
        let decoded = decode_body(body);
        if decoded.is_some() {
            return decoded;
        }
    }
    None
}

// ---------------------------------------------------------------------------
// Notification
// ---------------------------------------------------------------------------

/// The notification that a message gives rise to.
pub open spec fn spec_notification(message: Message) -> NotificationView {
    NotificationView {
        id: message.id@,
        thread_id: message.thread_id@,
        subject: match spec_header_value(message.payload.headers@, "Subject"@) {
            Some(subject) => subject,
            None => fallback_subject(),
        },
        snippet: opt_view(message.snippet),
        sender: spec_header_value(message.payload.headers@, "From"@),
        recipient: spec_header_value(message.payload.headers@, "To"@),
        received_at: spec_received_at(spec_header_value(message.payload.headers@, "Date"@)),
        url: spec_message_url(message.id@),
        body: spec_extract_body(message.payload),
    }
}

impl Message {
    /// Builds the notification for this message.
    pub fn into_notification(self) -> (n: GmailNotification)
        ensures
            n@ == spec_notification(self),
    {
        let subject = match header_value(&self.payload.headers, "Subject") {
            Some(subject) => subject,
            None => "(без темы)".to_owned(),
        };
        let sender = header_value(&self.payload.headers, "From");
        let recipient = header_value(&self.payload.headers, "To");
        let date = header_value(&self.payload.headers, "Date");
        let received = received_at(&date);
        let url = message_url(self.id.as_str());
        let body = extract_body(&self.payload);
        GmailNotification {
            id: self.id,
            thread_id: self.thread_id,
            subject,
            snippet: self.snippet,
            sender,
            recipient,
            received_at: received,
            url,
            body,
        }
    }
}

} // verus!
