use vstd::prelude::*;

verus! {

/// A request to show a notification, as it arrives on the request channel.
pub struct NotificationRequest {
    /// The logical notification slot; requests with one tag replace each other.
    pub tag: String,
    /// The text of the notification, if any.
    pub body: Option<String>,
    /// An integer surfaced as the `value` hint (a volume or progress level), if any.
    pub value: Option<i32>,
}

/// A request as plain values.
pub struct RequestView {
    pub tag: Seq<char>,
    pub body: Option<Seq<char>>,
    pub value: Option<i32>,
}

pub open spec fn opt_text_view(o: Option<String>) -> Option<Seq<char>> {
    match o {
        Some(s) => Some(s@),
        None => None,
    }
}

impl View for NotificationRequest {
    type V = RequestView;

    open spec fn view(&self) -> RequestView {
        RequestView { tag: self.tag@, body: opt_text_view(self.body), value: self.value }
    }
}

/// Why a datagram did not yield a request.
#[derive(Debug, Clone, Copy, PartialEq, Eq, Structural)]
pub enum DecodeError {
    /// The bytes are not a request record.
    Malformed,
    /// The record decoded, but its tag is empty.
    EmptyTag,
}

/// The fields `(tag, body, value)` that bincode's default options read from
/// `bytes` as one record, or `None` where the bytes are not such a record.
pub uninterp spec fn bincode_record_of(bytes: Seq<u8>) -> Option<(Seq<char>, Option<Seq<char>>, Option<i32>)>;

/// Relies on `bincode::Options::deserialize` with `bincode::DefaultOptions`
/// (varint integers, little endian, trailing bytes refused), reading the tuple
/// `(String, Option<String>, Option<i32>)`, which bincode lays out as the
/// request record: the outcome depends on the bytes alone.
#[verifier::external_body]
fn decode_record(bytes: &[u8]) -> (r: Option<(String, Option<String>, Option<i32>)>)
    ensures
        match r {
            Some(f) => bincode_record_of(bytes@) == Some((f.0@, opt_text_view(f.1), f.2)),
            None => bincode_record_of(bytes@) is None,
        },
{
    bincode::Options::deserialize::<(String, Option<String>, Option<i32>)>(
        bincode::DefaultOptions::new(),
        bytes,
    ).ok()
}

/// The request that decoded fields make, or the reason they make none.
pub open spec fn request_of_fields(
    fields: Option<(Seq<char>, Option<Seq<char>>, Option<i32>)>,
) -> Result<RequestView, DecodeError> {
    match fields {
        None => Err(DecodeError::Malformed),
        Some(f) => if f.0.len() == 0 {
            Err(DecodeError::EmptyTag)
        } else {
            Ok(RequestView { tag: f.0, body: f.1, value: f.2 })
        },
    }
}

pub open spec fn result_view(r: Result<NotificationRequest, DecodeError>) -> Result<RequestView, DecodeError> {
    match r {
        Ok(q) => Ok(q@),
        Err(e) => Err(e),
    }
}

/// Builds a request from decoded fields; a request needs a non-empty tag.
pub fn request_from_fields(tag: String, body: Option<String>, value: Option<i32>) -> (r: Result<
    NotificationRequest,
    DecodeError,
>)
    ensures
        result_view(r) == request_of_fields(Some((tag@, opt_text_view(body), value))),
{
    if tag.as_str().is_empty() {
        Err(DecodeError::EmptyTag)
    } else {
        Ok(NotificationRequest { tag, body, value })
    }
}

/// Decodes one datagram into a request.
pub fn decode(bytes: &[u8]) -> (r: Result<NotificationRequest, DecodeError>)
    ensures
        result_view(r) == request_of_fields(bincode_record_of(bytes@)),
{
    match decode_record(bytes) {
        Some(f) => request_from_fields(f.0, f.1, f.2),
        None => Err(DecodeError::Malformed),
    }
}

} // verus!
