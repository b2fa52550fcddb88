//! Error types: the structured error bodies the Letta API returns, and the
//! classification of failed responses into [`LettaError`] variants.

use vstd::prelude::*;
use crate::json::{
    JsonDoc, JsonDocView, JsonValue, JsonValueView, spec_json_parse, parse_json, json_quote,
    json_quote_str, entries_get, child_str, child_as_str, opt_string_view, value_get_first, value_get,
};
use crate::text::{
    TrimSet, trim, trim_ws, find, contains, chars_of, string_of, trim_chars, find_chars,
    slice_to_vec, push_all, push_str, lemma_find,
};

verus! {

/// Unauthorized error response structure.
#[derive(Debug)]
pub struct UnauthorizedError {
    /// Main error message.
    pub message: String,
    /// Detailed explanation.
    pub details: String,
    /// Server ownership information.
    pub ownership: String,
}

/// Simple detail error response.
#[derive(Debug)]
pub struct DetailError {
    /// Error detail message.
    pub detail: String,
}

/// Simple message error response.
#[derive(Debug)]
pub struct MessageError {
    /// Error message.
    pub message: String,
}

/// Structured error response body from the Letta API.
#[derive(Debug)]
pub enum ErrorBody {
    /// Plain text error response.
    Text(String),
    /// Unauthorized error (401) with specific fields.
    Unauthorized(UnauthorizedError),
    /// Error with detail field (validation errors, simple errors).
    Detail(DetailError),
    /// Error with message field.
    Message(MessageError),
    /// Unstructured JSON error response (fallback).
    Json(JsonDoc),
}

/// Mathematical view of an [`ErrorBody`].
pub enum ErrorBodyView {
    Text(Seq<char>),
    Unauthorized(Seq<char>, Seq<char>, Seq<char>),
    Detail(Seq<char>),
    Message(Seq<char>),
    Json(JsonDocView),
}

impl View for ErrorBody {
    type V = ErrorBodyView;

    open spec fn view(&self) -> ErrorBodyView {
        match self {
            ErrorBody::Text(t) => ErrorBodyView::Text(t@),
            ErrorBody::Unauthorized(e) => ErrorBodyView::Unauthorized(e.message@, e.details@, e.ownership@),
            ErrorBody::Detail(e) => ErrorBodyView::Detail(e.detail@),
            ErrorBody::Message(e) => ErrorBodyView::Message(e.message@),
            ErrorBody::Json(d) => ErrorBodyView::Json(d@),
        }
    }
}

/// String values of the fields `names` of an object's entries, as a derived
/// `Deserialize` of a struct of `String` fields reads them.
pub open spec fn object_string_fields(entries: Seq<(Seq<char>, Seq<char>)>, names: Seq<Seq<char>>) -> Option<Seq<Seq<char>>>
    decreases names.len(),
{
    if names.len() == 0 {
        Some(seq![])
    } else {
        match entries_get(entries, names[0]) {
            Some(c) => match child_str(c) {
                Some(s) => match object_string_fields(entries, names.drop_first()) {
                    Some(rest) => Some(seq![s] + rest),
                    None => None,
                },
                None => None,
            },
            None => None,
        }
    }
}

/// String values of array elements given as JSON text.
pub open spec fn array_string_fields(items: Seq<Seq<char>>) -> Option<Seq<Seq<char>>>
    decreases items.len(),
{
    if items.len() == 0 {
        Some(seq![])
    } else {
        match child_str(items[0]) {
            Some(s) => match array_string_fields(items.drop_first()) {
                Some(rest) => Some(seq![s] + rest),
                None => None,
            },
            None => None,
        }
    }
}

/// Whether a JSON value deserializes into a struct whose fields `names` are all
/// `String`s (an object holding them, or an array of exactly that many strings),
/// and the field values if so.
pub open spec fn string_struct_fields(v: JsonValueView, names: Seq<Seq<char>>) -> Option<Seq<Seq<char>>> {
    match v {
        JsonValueView::Object(entries) => object_string_fields(entries, names),
        JsonValueView::Array(items) => if items.len() == names.len() {
            array_string_fields(items)
        } else {
            None
        },
        _ => None,
    }
}

pub open spec fn unauthorized_fields() -> Seq<Seq<char>> {
    seq!["message"@, "details"@, "ownership"@]
}

pub open spec fn detail_fields() -> Seq<Seq<char>> {
    seq!["detail"@]
}

pub open spec fn message_fields() -> Seq<Seq<char>> {
    seq!["message"@]
}

/// The text inside the first `<pre>` ... first `</pre>` of an HTML body, or the body itself.
pub open spec fn html_error_text(body: Seq<char>) -> Seq<char> {
    if contains(body, "<pre>"@) && contains(body, "</pre>"@) {
        body.subrange(find(body, "<pre>"@).unwrap() + 5, find(body, "</pre>"@).unwrap())
    } else {
        body
    }
}

/// Bodies on which the `<pre>` extraction would slice backwards: not JSON, and the
/// first `</pre>` starts before the first `<pre>` ends.
pub open spec fn error_body_unreadable(body: Seq<char>) -> bool {
    &&& spec_json_parse(body) is None
    &&& contains(body, "<pre>"@)
    &&& contains(body, "</pre>"@)
    &&& find(body, "</pre>"@).unwrap() < find(body, "<pre>"@).unwrap() + 5
}

/// How a response body is classified: JSON bodies by the first of the unauthorized,
/// detail and message shapes that they fit, else kept as JSON; other bodies as text.
pub open spec fn spec_error_body(body: Seq<char>) -> ErrorBodyView {
    match spec_json_parse(body) {
        Some(d) => match string_struct_fields(d.value, unauthorized_fields()) {
            Some(f) => ErrorBodyView::Unauthorized(f[0], f[1], f[2]),
            None => match string_struct_fields(d.value, detail_fields()) {
                Some(f) => ErrorBodyView::Detail(f[0]),
                None => match string_struct_fields(d.value, message_fields()) {
                    Some(f) => ErrorBodyView::Message(f[0]),
                    None => ErrorBodyView::Json(d),
                },
            },
        },
        None => ErrorBodyView::Text(html_error_text(body)),
    }
}

/// The human-readable message of a body.
pub open spec fn body_message(b: ErrorBodyView) -> Option<Seq<char>> {
    match b {
        ErrorBodyView::Text(t) => if trim_ws(t).len() == 0 {
            None
        } else {
            Some(t)
        },
        ErrorBodyView::Unauthorized(m, _, _) => Some(m),
        ErrorBodyView::Detail(d) => Some(d),
        ErrorBodyView::Message(m) => Some(m),
        ErrorBodyView::Json(d) => match value_get_first(d.value, seq!["message"@, "error"@, "detail"@]) {
            Some(c) => child_str(c),
            None => None,
        },
    }
}

/// The error code of a body: only unstructured JSON carries one.
pub open spec fn body_code(b: ErrorBodyView) -> Option<Seq<char>> {
    match b {
        ErrorBodyView::Json(d) => match value_get_first(d.value, seq!["code"@, "error_code"@, "type"@]) {
            Some(c) => child_str(c),
            None => None,
        },
        _ => None,
    }
}

/// Whether a body reports a validation error.
pub open spec fn body_is_validation_error(b: ErrorBodyView) -> bool {
    match b {
        ErrorBodyView::Detail(d) => contains(d, "validation error"@),
        _ => false,
    }
}

/// The raw string form of a body: text as is, JSON compactly serialized.
pub open spec fn body_as_str(b: ErrorBodyView) -> Seq<char> {
    match b {
        ErrorBodyView::Text(t) => t,
        ErrorBodyView::Json(d) => d.text,
        ErrorBodyView::Unauthorized(m, d, o) => "{\"message\":"@ + json_quote(m) + ",\"details\":"@
            + json_quote(d) + ",\"ownership\":"@ + json_quote(o) + "}"@,
        ErrorBodyView::Detail(d) => "{\"detail\":"@ + json_quote(d) + "}"@,
        ErrorBodyView::Message(m) => "{\"message\":"@ + json_quote(m) + "}"@,
    }
}

pub open spec fn string_views(v: Seq<String>) -> Seq<Seq<char>> {
    v.map_values(|s: String| s@)
}

/// Reads the `String` fields `names` of a struct from a JSON value.
fn string_struct_fields_exec(v: &JsonValue, names: &[&str]) -> (r: Option<Vec<String>>)
    ensures
        match r {
            Some(f) => string_struct_fields(v@, names@.map_values(|n: &str| n@)) == Some(string_views(f@)),
            None => string_struct_fields(v@, names@.map_values(|n: &str| n@)) is None,
        },
{
    let ghost nv = names@.map_values(|n: &str| n@);
    match v {
        JsonValue::Object(_) => {
            let mut out: Vec<String> = Vec::new();
            let mut i: usize = 0;
            let ghost entries = match v@ {
                JsonValueView::Object(e) => e,
                _ => Seq::empty(),
            };
            assert(nv.skip(0) == nv);
            while i < names.len()
                invariant
                    i <= names@.len(),
                    nv == names@.map_values(|n: &str| n@),
                    v@ == JsonValueView::Object(entries),
                    string_struct_fields(v@, nv) == match object_string_fields(entries, nv.skip(i as int)) {
                        Some(rest) => Some(string_views(out@) + rest),
                        None => None,
                    },
                decreases names@.len() - i,
            {
                assert(nv.skip(i as int).drop_first() == nv.skip(i + 1));
                assert(nv.skip(i as int)[0] == names@[i as int]@);
                let c = v.get(names[i]);
                match c {
                    Some(c) => match child_as_str(c.as_str()) {
                        Some(s) => {
                            let ghost before = string_views(out@);
                            out.push(s);
                            assert(string_views(out@) == before + seq![s@]);
                            assert forall|rest: Seq<Seq<char>>| before + (seq![s@] + rest) == string_views(out@) + rest by {
                                assert(before + (seq![s@] + rest) == (before + seq![s@]) + rest);
                            }
                        },
                        None => {
                            return None;
                        },
                    },
                    None => {
                        return None;
                    },
                }
                i = i + 1;
            }
            assert(nv.skip(i as int).len() == 0);
            assert(string_views(out@) + Seq::<Seq<char>>::empty() == string_views(out@));
            Some(out)
        },
        JsonValue::Array(items) => {
            if items.len() != names.len() {
                return None;
            }
            let ghost iv = match v@ {
                JsonValueView::Array(x) => x,
                _ => Seq::empty(),
            };
            let mut out: Vec<String> = Vec::new();
            let mut i: usize = 0;
            assert(iv.skip(0) == iv);
            while i < items.len()
                invariant
                    i <= items@.len(),
                    iv.len() == items@.len(),
                    nv == names@.map_values(|n: &str| n@),
                    v@ == JsonValueView::Array(iv),
                    nv.len() == iv.len(),
                    forall|j: int| 0 <= j < iv.len() ==> #[trigger] iv[j] == items@[j]@,
                    string_struct_fields(v@, nv) == match array_string_fields(iv.skip(i as int)) {
                        Some(rest) => Some(string_views(out@) + rest),
                        None => None,
                    },
                decreases items@.len() - i,
            {
                assert(iv.skip(i as int).drop_first() == iv.skip(i + 1));
                assert(iv.skip(i as int)[0] == iv[i as int]);
                match child_as_str(items[i].as_str()) {
                    Some(s) => {
                        let ghost before = string_views(out@);
                        out.push(s);
                        assert(string_views(out@) == before + seq![s@]);
                        assert forall|rest: Seq<Seq<char>>| before + (seq![s@] + rest) == string_views(out@) + rest by {
                            assert(before + (seq![s@] + rest) == (before + seq![s@]) + rest);
                        }
                    },
                    None => {
                        return None;
                    },
                }
                i = i + 1;
            }
            assert(iv.skip(i as int).len() == 0);
            assert(string_views(out@) + Seq::<Seq<char>>::empty() == string_views(out@));
            Some(out)
        },
        _ => None,
    }
}

} // verus!

verus! {

pub proof fn lemma_object_string_fields_len(entries: Seq<(Seq<char>, Seq<char>)>, names: Seq<Seq<char>>)
    ensures
        object_string_fields(entries, names) matches Some(f) ==> f.len() == names.len(),
    decreases names.len(),
{
    if names.len() > 0 {
        lemma_object_string_fields_len(entries, names.drop_first());
    }
}

pub proof fn lemma_array_string_fields_len(items: Seq<Seq<char>>)
    ensures
        array_string_fields(items) matches Some(f) ==> f.len() == items.len(),
    decreases items.len(),
{
    if items.len() > 0 {
        lemma_array_string_fields_len(items.drop_first());
    }
}

pub proof fn lemma_string_struct_fields_len(v: JsonValueView, names: Seq<Seq<char>>)
    ensures
        string_struct_fields(v, names) matches Some(f) ==> f.len() == names.len(),
{
    match v {
        JsonValueView::Object(entries) => lemma_object_string_fields_len(entries, names),
        JsonValueView::Array(items) => lemma_array_string_fields_len(items),
        _ => {},
    }
}

impl UnauthorizedError {
    /// Builds an unauthorized error body.
    pub fn new(message: String, details: String, ownership: String) -> (r: Self)
        ensures
            r.message == message,
            r.details == details,
            r.ownership == ownership,
    {
        UnauthorizedError { message, details, ownership }
    }
}

impl ErrorBody {
    /// Parse an error body from a response string.
    ///
    /// JSON bodies become the first of [`ErrorBody::Unauthorized`], [`ErrorBody::Detail`]
    /// and [`ErrorBody::Message`] whose shape they fit, else [`ErrorBody::Json`]; other
    /// bodies become [`ErrorBody::Text`], reduced to the contents of a `<pre>` element
    /// when there is one.
    pub fn from_response(body: &str) -> (r: Self)
        requires
            !error_body_unreadable(body@),
        ensures
            r@ == spec_error_body(body@),
    {
        match parse_json(body) {
            Some(d) => {
                let un: [&str; 3] = ["message", "details", "ownership"];
                assert(un@.map_values(|n: &str| n@) =~= unauthorized_fields());
                proof {
                    lemma_string_struct_fields_len(d.value@, unauthorized_fields());
                    lemma_string_struct_fields_len(d.value@, detail_fields());
                    lemma_string_struct_fields_len(d.value@, message_fields());
                }
                if let Some(f) = string_struct_fields_exec(&d.value, un.as_slice()) {
                    assert(string_views(f@)[0] == f@[0]@);
                    assert(string_views(f@)[1] == f@[1]@);
                    assert(string_views(f@)[2] == f@[2]@);
                    return ErrorBody::Unauthorized(UnauthorizedError {
                        message: f[0].clone(),
                        details: f[1].clone(),
                        ownership: f[2].clone(),
                    });
                }
                let de: [&str; 1] = ["detail"];
                assert(de@.map_values(|n: &str| n@) =~= detail_fields());
                if let Some(f) = string_struct_fields_exec(&d.value, de.as_slice()) {
                    assert(string_views(f@)[0] == f@[0]@);
                    return ErrorBody::Detail(DetailError { detail: f[0].clone() });
                }
                let me: [&str; 1] = ["message"];
                assert(me@.map_values(|n: &str| n@) =~= message_fields());
                if let Some(f) = string_struct_fields_exec(&d.value, me.as_slice()) {
                    assert(string_views(f@)[0] == f@[0]@);
                    return ErrorBody::Message(MessageError { message: f[0].clone() });
                }
                ErrorBody::Json(d)
            },
            None => {
                let b = chars_of(body);
                let open_tag = chars_of("<pre>");
                let close_tag = chars_of("</pre>");
                let start = find_chars(&b, &open_tag);
                let end = find_chars(&b, &close_tag);
                match (start, end) {
                    (Some(st), Some(en)) => {
                        proof {
                            lemma_find(b@, open_tag@);
                            lemma_find(b@, close_tag@);
                        }
                        let content = slice_to_vec(&b, st + 5, en);
                        ErrorBody::Text(string_of(&content))
                    },
                    _ => ErrorBody::Text(body.to_string()),
                }
            },
        }
    }

    /// Extract a human-readable message from the error body.
    pub fn message(&self) -> (r: Option<String>)
        ensures
            opt_string_view(r) == body_message(self@),
    {
        match self {
            ErrorBody::Text(text) => {
                let t = chars_of(text.as_str());
                let tr = trim_chars(&t, TrimSet::Whitespace);
                if tr.len() == 0 {
                    None
                } else {
                    Some(text.clone())
                }
            },
            ErrorBody::Unauthorized(err) => Some(err.message.clone()),
            ErrorBody::Detail(err) => Some(err.detail.clone()),
            ErrorBody::Message(err) => Some(err.message.clone()),
            ErrorBody::Json(d) => {
                let keys: [&str; 3] = ["message", "error", "detail"];
                assert(keys@.map_values(|k: &str| k@) =~= seq!["message"@, "error"@, "detail"@]);
                match d.value.get_first(keys.as_slice()) {
                    Some(c) => child_as_str(c.as_str()),
                    None => None,
                }
            },
        }
    }

    /// Extract an error code if available.
    pub fn code(&self) -> (r: Option<String>)
        ensures
            opt_string_view(r) == body_code(self@),
    {
        match self {
            ErrorBody::Json(d) => {
                let keys: [&str; 3] = ["code", "error_code", "type"];
                assert(keys@.map_values(|k: &str| k@) =~= seq!["code"@, "error_code"@, "type"@]);
                match d.value.get_first(keys.as_slice()) {
                    Some(c) => child_as_str(c.as_str()),
                    None => None,
                }
            },
            _ => None,
        }
    }

    /// Check if this is a validation error.
    pub fn is_validation_error(&self) -> (r: bool)
        ensures
            r == body_is_validation_error(self@),
    {
        match self {
            ErrorBody::Detail(detail) => {
                let d = chars_of(detail.detail.as_str());
                let pat = chars_of("validation error");
                find_chars(&d, &pat).is_some()
            },
            _ => false,
        }
    }

    /// Get the raw string representation of the error body.
    pub fn as_str(&self) -> (r: String)
        ensures
            r@ == body_as_str(self@),
    {
        match self {
            ErrorBody::Text(text) => text.clone(),
            ErrorBody::Json(d) => d.text.clone(),
            ErrorBody::Unauthorized(err) => {
                let mut v: Vec<char> = Vec::new();
                push_str(&mut v, "{\"message\":");
                push_str(&mut v, json_quote_str(err.message.as_str()).as_str());
                push_str(&mut v, ",\"details\":");
                push_str(&mut v, json_quote_str(err.details.as_str()).as_str());
                push_str(&mut v, ",\"ownership\":");
                push_str(&mut v, json_quote_str(err.ownership.as_str()).as_str());
                push_str(&mut v, "}");
                string_of(&v)
            },
            ErrorBody::Detail(err) => {
                let mut v: Vec<char> = Vec::new();
                push_str(&mut v, "{\"detail\":");
                push_str(&mut v, json_quote_str(err.detail.as_str()).as_str());
                push_str(&mut v, "}");
                string_of(&v)
            },
            ErrorBody::Message(err) => {
                let mut v: Vec<char> = Vec::new();
                push_str(&mut v, "{\"message\":");
                push_str(&mut v, json_quote_str(err.message.as_str()).as_str());
                push_str(&mut v, "}");
                string_of(&v)
            },
        }
    }
}

} // verus!

verus! {

/// Comprehensive error type for all Letta client operations.
///
/// Failures that originate in the transport, serializer or URL parser carry the
/// description of the underlying error as text.
#[derive(Debug)]
pub enum LettaError {
    /// HTTP request failed.
    Http {
        /// Description of the transport error.
        message: String,
        /// The request timed out.
        is_timeout: bool,
        /// The connection could not be established.
        is_connect: bool,
        /// The request could not be sent.
        is_request: bool,
    },
    /// Authentication failed.
    Auth {
        /// Detailed authentication error message.
        message: String,
    },
    /// API returned an error response.
    Api {
        /// HTTP status code.
        status: u16,
        /// Error message from the API.
        message: String,
        /// Optional error code from the API.
        code: Option<String>,
        /// Structured error response body.
        body: ErrorBody,
        /// Request URL that failed.
        url: Option<String>,
        /// Request method that failed.
        method: Option<String>,
    },
    /// JSON serialization/deserialization failed.
    Serde {
        /// Description of the serializer error.
        message: String,
    },
    /// Streaming operation failed.
    Streaming {
        /// Detailed streaming error message.
        message: String,
        /// Description of the source error, if any.
        source: Option<String>,
    },
    /// Client configuration error.
    Config {
        /// Configuration error message.
        message: String,
    },
    /// URL parsing error.
    Url {
        /// Description of the parse error.
        message: String,
    },
    /// I/O operation failed.
    Io {
        /// Description of the I/O error.
        message: String,
    },
    /// URL encoding error.
    UrlEncoding {
        /// Description of the encoding error.
        message: String,
    },
    /// Request timeout.
    RequestTimeout {
        /// Timeout duration in seconds.
        seconds: u64,
    },
    /// Rate limit exceeded.
    RateLimit {
        /// Seconds to wait before retrying.
        retry_after: Option<u64>,
    },
    /// Resource not found.
    NotFound {
        /// Type of resource that was not found.
        resource_type: String,
        /// ID of the resource.
        id: String,
    },
    /// Validation error for request parameters.
    Validation {
        /// Validation error message.
        message: String,
        /// Field that failed validation, if applicable.
        field: Option<String>,
    },
}

/// Mathematical view of a [`LettaError`].
pub enum LettaErrorView {
    Http { message: Seq<char>, is_timeout: bool, is_connect: bool, is_request: bool },
    Auth { message: Seq<char> },
    Api {
        status: u16,
        message: Seq<char>,
        code: Option<Seq<char>>,
        body: ErrorBodyView,
        url: Option<Seq<char>>,
        method: Option<Seq<char>>,
    },
    Serde { message: Seq<char> },
    Streaming { message: Seq<char>, source: Option<Seq<char>> },
    Config { message: Seq<char> },
    Url { message: Seq<char> },
    Io { message: Seq<char> },
    UrlEncoding { message: Seq<char> },
    RequestTimeout { seconds: u64 },
    RateLimit { retry_after: Option<u64> },
    NotFound { resource_type: Seq<char>, id: Seq<char> },
    Validation { message: Seq<char>, field: Option<Seq<char>> },
}

impl View for LettaError {
    type V = LettaErrorView;

    open spec fn view(&self) -> LettaErrorView {
        match self {
            LettaError::Http { message, is_timeout, is_connect, is_request } => LettaErrorView::Http {
                message: message@,
                is_timeout: *is_timeout,
                is_connect: *is_connect,
                is_request: *is_request,
            },
            LettaError::Auth { message } => LettaErrorView::Auth { message: message@ },
            LettaError::Api { status, message, code, body, url, method } => LettaErrorView::Api {
                status: *status,
                message: message@,
                code: opt_string_view(*code),
                body: body@,
                url: opt_string_view(*url),
                method: opt_string_view(*method),
            },
            LettaError::Serde { message } => LettaErrorView::Serde { message: message@ },
            LettaError::Streaming { message, source } => LettaErrorView::Streaming {
                message: message@,
                source: opt_string_view(*source),
            },
            LettaError::Config { message } => LettaErrorView::Config { message: message@ },
            LettaError::Url { message } => LettaErrorView::Url { message: message@ },
            LettaError::Io { message } => LettaErrorView::Io { message: message@ },
            LettaError::UrlEncoding { message } => LettaErrorView::UrlEncoding { message: message@ },
            LettaError::RequestTimeout { seconds } => LettaErrorView::RequestTimeout { seconds: *seconds },
            LettaError::RateLimit { retry_after } => LettaErrorView::RateLimit { retry_after: *retry_after },
            LettaError::NotFound { resource_type, id } => LettaErrorView::NotFound {
                resource_type: resource_type@,
                id: id@,
            },
            LettaError::Validation { message, field } => LettaErrorView::Validation {
                message: message@,
                field: opt_string_view(*field),
            },
        }
    }
}

/// Default error message for an HTTP status code.
pub open spec fn default_message(status: u16) -> Seq<char> {
    if status == 400 {
        "Bad Request"@
    } else if status == 401 {
        "Unauthorized"@
    } else if status == 403 {
        "Forbidden"@
    } else if status == 404 {
        "Not Found"@
    } else if status == 408 {
        "Request Timeout"@
    } else if status == 422 {
        "Unprocessable Entity"@
    } else if status == 429 {
        "Too Many Requests"@
    } else if status == 500 {
        "Internal Server Error"@
    } else if status == 502 {
        "Bad Gateway"@
    } else if status == 503 {
        "Service Unavailable"@
    } else if status == 504 {
        "Gateway Timeout"@
    } else {
        "HTTP "@ + crate::text::dec(status as nat)
    }
}

/// The retry delay a JSON body names in `retry_after`, `retryAfter` or `retry-after`
/// (the first of these keys present), when it is a non-negative integer.
pub open spec fn body_retry_after(b: ErrorBodyView) -> Option<u64> {
    match b {
        ErrorBodyView::Json(d) => match value_get_first(d.value, seq!["retry_after"@, "retryAfter"@, "retry-after"@]) {
            Some(c) => crate::json::child_u64(c),
            None => None,
        },
        _ => None,
    }
}

/// The field named by a message of the form `... Field 'name' ...`.
pub open spec fn message_field(m: Seq<char>) -> Option<Seq<char>> {
    if contains(m, "Field '"@) {
        let after = m.skip(find(m, "Field '"@).unwrap() + 7);
        match find(after, seq!['\'']) {
            Some(e) => Some(after.take(e)),
            None => None,
        }
    } else {
        None
    }
}

/// The field a validation error names: a JSON body's `field` string, else the first
/// key of its `validation_errors` object, else the one the message names.
pub open spec fn validation_field(message: Seq<char>, b: ErrorBodyView) -> Option<Seq<char>> {
    match b {
        ErrorBodyView::Json(d) => {
            let f = match crate::json::value_get(d.value, "field"@) {
                Some(c) => child_str(c),
                None => None,
            };
            if f is Some {
                f
            } else {
                let k = match crate::json::value_get(d.value, "validation_errors"@) {
                    Some(c) => crate::json::child_first_key(c),
                    None => None,
                };
                if k is Some {
                    k
                } else {
                    message_field(message)
                }
            }
        },
        _ => message_field(message),
    }
}

} // verus!

verus! {

/// Byte offset, in the lower-cased message, at which the first ` not found` starts.
pub open spec fn not_found_byte(m: Seq<char>) -> Option<int> {
    let lower = crate::text::spec_lowercase(m);
    match find(lower, " not found"@) {
        Some(k) => Some(crate::text::byte_len(lower.take(k)) as int),
        None => None,
    }
}

/// Messages on which the resource extraction would cut the message at a byte offset
/// (found in its lower-cased form) that is not a character boundary of the message.
pub open spec fn resource_info_cuts_off_boundary(m: Seq<char>) -> bool {
    match not_found_byte(m) {
        Some(b) => crate::text::char_index_of_byte(m, b) is None,
        None => false,
    }
}

/// The `X with ID id`, `X 'id'` and bare `X` patterns, read from the text before
/// ` not found`; `None` when the text has a single quote (the next pattern is tried).
pub open spec fn prefix_resource_info(prefix: Seq<char>) -> Option<Option<(Seq<char>, Seq<char>)>> {
    match find(prefix, " with ID "@) {
        Some(i) => Some(Some((
            trim_ws(prefix.take(i)),
            trim(trim(trim_ws(prefix.skip(i + 9)), TrimSet::Char('"')), TrimSet::Char('\'')),
        ))),
        None => match crate::text::rfind_char(prefix, '\'') {
            Some(q) => match crate::text::rfind_char(prefix.take(q), '\'') {
                Some(p) => Some(Some((trim_ws(prefix.take(p)), prefix.subrange(p + 1, q)))),
                None => None,
            },
            None => Some(Some((trim_ws(prefix), seq![]))),
        },
    }
}

/// Index of the first word, after the first, that lower-cases to `found`.
pub open spec fn first_found_word(ws: Seq<Seq<char>>, i: int) -> Option<int>
    decreases ws.len() - i,
{
    if i < 0 || i >= ws.len() {
        None
    } else if i > 0 && crate::text::spec_lowercase(ws[i]) == "found"@ {
        Some(i)
    } else {
        first_found_word(ws, i + 1)
    }
}

/// The `No X found with ID: id` pattern.
pub open spec fn found_with_id_info(m: Seq<char>) -> Option<(Seq<char>, Seq<char>)> {
    let lower = crate::text::spec_lowercase(m);
    if contains(lower, " found "@) && contains(lower, " with id:"@) {
        match find(m, seq![':']) {
            Some(c) => {
                let ws = crate::text::words(m.take(c));
                match first_found_word(ws, 0) {
                    Some(i) => Some((ws[i - 1], trim_ws(m.skip(c + 1)))),
                    None => None,
                }
            },
            None => None,
        }
    } else {
        None
    }
}

/// Resource type and ID named by a 404 message.
pub open spec fn resource_info(m: Seq<char>) -> Option<(Seq<char>, Seq<char>)> {
    match not_found_byte(m) {
        Some(b) => match prefix_resource_info(m.take(crate::text::char_index_of_byte(m, b).unwrap())) {
            Some(r) => r,
            None => found_with_id_info(m),
        },
        None => found_with_id_info(m),
    }
}

pub open spec fn opt_pair_view(o: Option<(String, String)>) -> Option<(Seq<char>, Seq<char>)> {
    match o {
        Some(p) => Some((p.0@, p.1@)),
        None => None,
    }
}

pub open spec fn opt_vec_pair_view(o: Option<(Vec<char>, Vec<char>)>) -> Option<(Seq<char>, Seq<char>)> {
    match o {
        Some(p) => Some((p.0@, p.1@)),
        None => None,
    }
}

fn prefix_resource_info_exec(prefix: &[char]) -> (r: Option<Option<(Vec<char>, Vec<char>)>>)
    ensures
        match r {
            Some(x) => prefix_resource_info(prefix@) == Some(opt_vec_pair_view(x)),
            None => prefix_resource_info(prefix@) is None,
        },
{
    let with_id = chars_of(" with ID ");
    match find_chars(prefix, &with_id) {
        Some(i) => {
            proof {
                lemma_find(prefix@, with_id@);
                reveal_strlit(" with ID ");
            }
            assert(i + 9 <= prefix.len());
            let res = trim_chars(&slice_to_vec(prefix, 0, i), TrimSet::Whitespace);
            let rest = slice_to_vec(prefix, i + 9, prefix.len());
            assert(prefix@.take(i as int) == prefix@.subrange(0, i as int));
            assert(prefix@.skip(i + 9) == prefix@.subrange(i + 9, prefix@.len() as int));
            let id = trim_chars(&rest, TrimSet::Whitespace);
            let id = trim_chars(&id, TrimSet::Char('"'));
            let id = trim_chars(&id, TrimSet::Char('\''));
            Some(Some((res, id)))
        },
        None => match crate::text::rfind_char_exec(prefix, '\'') {
            Some(q) => {
                proof {
                    crate::text::lemma_rfind_char(prefix@, '\'');
                }
                let before = slice_to_vec(prefix, 0, q);
                assert(before@ == prefix@.take(q as int));
                match crate::text::rfind_char_exec(&before, '\'') {
                    Some(p) => {
                        proof {
                            crate::text::lemma_rfind_char(before@, '\'');
                        }
                        let res = trim_chars(&slice_to_vec(prefix, 0, p), TrimSet::Whitespace);
                        assert(prefix@.take(p as int) == prefix@.subrange(0, p as int));
                        let id = slice_to_vec(prefix, p + 1, q);
                        Some(Some((res, id)))
                    },
                    None => None,
                }
            },
            None => {
                let res = trim_chars(prefix, TrimSet::Whitespace);
                let empty: Vec<char> = Vec::new();
                assert(empty@ =~= Seq::<char>::empty());
                Some(Some((res, empty)))
            },
        },
    }
}

} // verus!

verus! {

fn found_with_id_info_exec(m: &[char], lower: &[char]) -> (r: Option<(Vec<char>, Vec<char>)>)
    requires
        lower@ == crate::text::spec_lowercase(m@),
    ensures
        opt_vec_pair_view(r) == found_with_id_info(m@),
{
    let found = chars_of(" found ");
    let with_id = chars_of(" with id:");
    if find_chars(lower, &found).is_none() || find_chars(lower, &with_id).is_none() {
        return None;
    }
    let colon: [char; 1] = [':'];
    assert(colon@ =~= seq![':']);
    match find_chars(m, colon.as_slice()) {
        Some(c) => {
            proof {
                lemma_find(m@, seq![':']);
            }
            let head = slice_to_vec(m, 0, c);
            assert(head@ == m@.take(c as int));
            let ws = crate::text::split_whitespace(&head);
            let ghost wv = crate::text::views_of(ws@);
            let found_word = chars_of("found");
            let mut i: usize = 0;
            while i < ws.len()
                invariant
                    i <= ws@.len(),
                    wv == crate::text::views_of(ws@),
                    wv == crate::text::words(m@.take(c as int)),
                    found_word@ == "found"@,
                    c < m@.len(),
                    m@.len() == m.len(),
                    contains(crate::text::spec_lowercase(m@), " found "@),
                    contains(crate::text::spec_lowercase(m@), " with id:"@),
                    find(m@, seq![':']) == Some(c as int),
                    first_found_word(wv, 0) == first_found_word(wv, i as int),
                decreases ws@.len() - i,
            {
                assert(wv[i as int] == ws@[i as int]@);
                if i > 0 {
                    let w = string_of(&ws[i]);
                    let lw = crate::text::to_lowercase(w.as_str());
                    let lwc = chars_of(lw.as_str());
                    if crate::text::chars_eq(&lwc, &found_word) {
                        assert(wv[i - 1] == ws@[i - 1]@);
                        let id = trim_chars(&slice_to_vec(m, c + 1, m.len()), TrimSet::Whitespace);
                        assert(m@.skip(c + 1) == m@.subrange(c + 1, m@.len() as int));
                        let prev = slice_to_vec(&ws[i - 1], 0, ws[i - 1].len());
                        assert(ws@[i - 1]@.subrange(0, ws@[i - 1]@.len() as int) == ws@[i - 1]@);
                        return Some((prev, id));
                    }
                }
                i = i + 1;
            }
            None
        },
        None => None,
    }
}

} // verus!

verus! {

fn string_from_pair(p: Option<(Vec<char>, Vec<char>)>) -> (r: Option<(String, String)>)
    ensures
        opt_pair_view(r) == opt_vec_pair_view(p),
{
    match p {
        Some((a, b)) => Some((string_of(&a), string_of(&b))),
        None => None,
    }
}

impl LettaError {
    /// Extract resource type and ID from a 404 error message.
    /// Handles patterns like:
    /// - "Agent not found"
    /// - "Agent with ID xxx not found"
    /// - "Tool 'xxx' not found"
    /// - "No source found with ID: xxx"
    pub fn extract_resource_info(message: &str) -> (r: Option<(String, String)>)
        requires
            !resource_info_cuts_off_boundary(message@),
        ensures
            opt_pair_view(r) == resource_info(message@),
    {
        let m = chars_of(message);
        let lower_s = crate::text::to_lowercase(message);
        let lower = chars_of(lower_s.as_str());
        let nf = chars_of(" not found");
        match find_chars(&lower, &nf) {
            Some(k) => {
                proof {
                    lemma_find(lower@, nf@);
                    assert(lower@.take(lower@.len() as int) == lower@);
                    crate::text::lemma_byte_len_take_mono(lower@, k as int, lower@.len() as int);
                }
                let b = crate::text::byte_len_prefix(&lower, k);
                match crate::text::char_index_of_byte_exec(&m, b) {
                    Some(cut) => {
                        proof {
                            crate::text::lemma_char_index_of_byte_bound(m@, b as int);
                        }
                        let prefix = slice_to_vec(&m, 0, cut);
                        assert(prefix@ == m@.take(cut as int));
                        match prefix_resource_info_exec(&prefix) {
                            Some(x) => string_from_pair(x),
                            None => string_from_pair(found_with_id_info_exec(&m, &lower)),
                        }
                    },
                    None => {
                        assert(false);
                        None
                    },
                }
            },
            None => string_from_pair(found_with_id_info_exec(&m, &lower)),
        }
    }

    /// Extract field name from validation error message or body.
    pub fn extract_validation_field(message: &str, body: &ErrorBody) -> (r: Option<String>)
        ensures
            opt_string_view(r) == validation_field(message@, body@),
    {
        if let ErrorBody::Json(d) = body {
            if let Some(c) = d.value.get("field") {
                if let Some(f) = child_as_str(c.as_str()) {
                    return Some(f);
                }
            }
            if let Some(c) = d.value.get("validation_errors") {
                if let Some(k) = crate::json::child_first_object_key(c.as_str()) {
                    return Some(k);
                }
            }
        }
        let m = chars_of(message);
        let pat = chars_of("Field '");
        match find_chars(&m, &pat) {
            Some(start) => {
                proof {
                    lemma_find(m@, pat@);
                    reveal_strlit("Field '");
                }
                assert(start + 7 <= m.len());
                let after = slice_to_vec(&m, start + 7, m.len());
                assert(after@ == m@.skip(start + 7));
                let q: [char; 1] = ['\''];
                assert(q@ =~= seq!['\'']);
                match find_chars(&after, q.as_slice()) {
                    Some(e) => {
                        proof {
                            lemma_find(after@, seq!['\'']);
                        }
                        let f = slice_to_vec(&after, 0, e);
                        assert(f@ == after@.take(e as int));
                        Some(string_of(&f))
                    },
                    None => None,
                }
            },
            None => None,
        }
    }

    /// Extract retry-after value from error body.
    pub fn extract_retry_after(body: &ErrorBody) -> (r: Option<u64>)
        ensures
            r == body_retry_after(body@),
    {
        if let ErrorBody::Json(d) = body {
            let keys: [&str; 3] = ["retry_after", "retryAfter", "retry-after"];
            assert(keys@.map_values(|k: &str| k@) =~= seq!["retry_after"@, "retryAfter"@, "retry-after"@]);
            match d.value.get_first(keys.as_slice()) {
                Some(c) => crate::json::child_as_u64(c.as_str()),
                None => None,
            }
        } else {
            None
        }
    }

    /// Get default error message for HTTP status code.
    pub fn default_message_for_status(status: u16) -> (r: String)
        ensures
            r@ == default_message(status),
    {
        if status == 400 {
            "Bad Request".to_string()
        } else if status == 401 {
            "Unauthorized".to_string()
        } else if status == 403 {
            "Forbidden".to_string()
        } else if status == 404 {
            "Not Found".to_string()
        } else if status == 408 {
            "Request Timeout".to_string()
        } else if status == 422 {
            "Unprocessable Entity".to_string()
        } else if status == 429 {
            "Too Many Requests".to_string()
        } else if status == 500 {
            "Internal Server Error".to_string()
        } else if status == 502 {
            "Bad Gateway".to_string()
        } else if status == 503 {
            "Service Unavailable".to_string()
        } else if status == 504 {
            "Gateway Timeout".to_string()
        } else {
            let mut v: Vec<char> = Vec::new();
            push_str(&mut v, "HTTP ");
            let d = crate::text::dec_chars(status as u64);
            push_all(&mut v, &d);
            string_of(&v)
        }
    }
}

} // verus!

verus! {

/// The message of a failed response: the body's message, else the status's default.
pub open spec fn response_message(status: u16, body: Seq<char>) -> Seq<char> {
    match body_message(spec_error_body(body)) {
        Some(m) => m,
        None => default_message(status),
    }
}

/// Responses that the classification cannot read: an HTML body whose `<pre>` markers
/// are out of order, or a 404 message that resource extraction would cut inside a character.
pub open spec fn response_unreadable(status: u16, body: Seq<char>) -> bool {
    ||| error_body_unreadable(body)
    ||| (status == 404 && resource_info_cuts_off_boundary(response_message(status, body)))
}

/// The retry delay of a 429 response: the `retry-after` header when it is a valid
/// unsigned integer, else the one the body names.
pub open spec fn response_retry_after(retry_after_header: Option<Seq<char>>, body: ErrorBodyView) -> Option<u64> {
    match retry_after_header {
        Some(h) => match crate::text::parse_u64(h) {
            Some(v) => Some(v),
            None => body_retry_after(body),
        },
        None => body_retry_after(body),
    }
}

/// The error a failed response maps to.
pub open spec fn spec_from_response(
    status: u16,
    body_str: Seq<char>,
    retry_after_header: Option<Seq<char>>,
    url: Option<Seq<char>>,
    method: Option<Seq<char>>,
) -> LettaErrorView {
    let body = spec_error_body(body_str);
    let message = response_message(status, body_str);
    let code = body_code(body);
    let api = LettaErrorView::Api { status, message, code, body, url, method };
    if status == 401 {
        if body is Unauthorized {
            api
        } else {
            LettaErrorView::Auth { message }
        }
    } else if status == 404 {
        match resource_info(message) {
            Some(info) => LettaErrorView::NotFound { resource_type: info.0, id: info.1 },
            None => api,
        }
    } else if status == 422 {
        LettaErrorView::Validation { message, field: validation_field(message, body) }
    } else if status == 429 {
        LettaErrorView::RateLimit { retry_after: response_retry_after(retry_after_header, body) }
    } else if status == 408 || status == 504 {
        LettaErrorView::RequestTimeout { seconds: 60 }
    } else {
        api
    }
}

pub open spec fn opt_str_view(o: Option<&str>) -> Option<Seq<char>> {
    match o {
        Some(s) => Some(s@),
        None => None,
    }
}

/// Whether `body` is one of the bodies [`ErrorBody::from_response`] cannot read.
pub fn error_body_unreadable_exec(body: &str) -> (r: bool)
    ensures
        r == error_body_unreadable(body@),
{
    if parse_json(body).is_some() {
        return false;
    }
    let b = chars_of(body);
    let open_tag = chars_of("<pre>");
    let close_tag = chars_of("</pre>");
    match (find_chars(&b, &open_tag), find_chars(&b, &close_tag)) {
        (Some(st), Some(en)) => en < st || en - st < 5,
        _ => false,
    }
}

/// Whether the resource extraction would cut `message` inside a character.
pub fn resource_info_cuts_off_boundary_exec(message: &str) -> (r: bool)
    ensures
        r == resource_info_cuts_off_boundary(message@),
{
    let m = chars_of(message);
    let lower_s = crate::text::to_lowercase(message);
    let lower = chars_of(lower_s.as_str());
    let nf = chars_of(" not found");
    match find_chars(&lower, &nf) {
        Some(k) => {
            proof {
                lemma_find(lower@, nf@);
                assert(lower@.take(lower@.len() as int) == lower@);
                crate::text::lemma_byte_len_take_mono(lower@, k as int, lower@.len() as int);
            }
            let b = crate::text::byte_len_prefix(&lower, k);
            crate::text::char_index_of_byte_exec(&m, b).is_none()
        },
        None => false,
    }
}

impl LettaError {
    /// Create a new API error from response body with full context.
    /// Automatically parses and structures the error body and maps to specific error types.
    ///
    /// `retry_after_header` is the text of the response's `retry-after` header, when it
    /// has one that is visible ASCII; `url` and `method` describe the failed request.
    pub fn from_response_with_context(
        status: u16,
        body_str: String,
        retry_after_header: Option<String>,
        url: Option<String>,
        method: Option<String>,
    ) -> (r: Self)
        requires
            !response_unreadable(status, body_str@),
        ensures
            r@ == spec_from_response(
                status,
                body_str@,
                opt_string_view(retry_after_header),
                opt_string_view(url),
                opt_string_view(method),
            ),
    {
        let body = ErrorBody::from_response(body_str.as_str());
        let message = match body.message() {
            Some(m) => m,
            None => Self::default_message_for_status(status),
        };
        let code = body.code();
        if status == 401 {
            if let ErrorBody::Unauthorized(_) = &body {
                LettaError::Api { status, message, code, body, url, method }
            } else {
                LettaError::Auth { message }
            }
        } else if status == 404 {
            match Self::extract_resource_info(message.as_str()) {
                Some((resource_type, id)) => LettaError::NotFound { resource_type, id },
                None => LettaError::Api { status, message, code, body, url, method },
            }
        } else if status == 422 {
            let field = Self::extract_validation_field(message.as_str(), &body);
            LettaError::Validation { message, field }
        } else if status == 429 {
            let from_header = match &retry_after_header {
                Some(h) => {
                    let hc = chars_of(h.as_str());
                    crate::text::parse_u64_exec(&hc)
                },
                None => None,
            };
            let retry_after = match from_header {
                Some(v) => Some(v),
                None => Self::extract_retry_after(&body),
            };
            LettaError::RateLimit { retry_after }
        } else if status == 408 || status == 504 {
            LettaError::RequestTimeout { seconds: 60 }
        } else {
            LettaError::Api { status, message, code, body, url, method }
        }
    }

    /// Like [`LettaError::from_response_with_context`], but `None` on the responses that
    /// it cannot read (see [`response_unreadable`]).
    pub fn try_from_response_with_context(
        status: u16,
        body_str: String,
        retry_after_header: Option<String>,
        url: Option<String>,
        method: Option<String>,
    ) -> (r: Option<Self>)
        ensures
            r is None <==> response_unreadable(status, body_str@),
            r matches Some(e) ==> e@ == spec_from_response(
                status,
                body_str@,
                opt_string_view(retry_after_header),
                opt_string_view(url),
                opt_string_view(method),
            ),
    {
        if error_body_unreadable_exec(body_str.as_str()) {
            return None;
        }
        if status == 404 {
            let body = ErrorBody::from_response(body_str.as_str());
            let message = match body.message() {
                Some(m) => m,
                None => Self::default_message_for_status(status),
            };
            if resource_info_cuts_off_boundary_exec(message.as_str()) {
                return None;
            }
        }
        Some(Self::from_response_with_context(status, body_str, retry_after_header, url, method))
    }

    /// Create a new API error from response body.
    /// Automatically parses and structures the error body and maps to specific error types.
    pub fn from_response(status: u16, body_str: String) -> (r: Self)
        requires
            !response_unreadable(status, body_str@),
        ensures
            r@ == spec_from_response(status, body_str@, None, None, None),
    {
        Self::from_response_with_context(status, body_str, None, None, None)
    }

    /// Create a new API error from response body and the response's `retry-after` header text.
    pub fn from_response_with_headers(status: u16, body_str: String, retry_after_header: Option<String>) -> (r: Self)
        requires
            !response_unreadable(status, body_str@),
        ensures
            r@ == spec_from_response(status, body_str@, opt_string_view(retry_after_header), None, None),
    {
        Self::from_response_with_context(status, body_str, retry_after_header, None, None)
    }
}

} // verus!

verus! {

/// How serious a diagnostic is.
#[derive(PartialEq, Eq, Structural, Clone, Copy, Debug)]
pub enum Severity {
    /// Just some help.
    Advice,
    /// Something should be fixed.
    Warning,
    /// A failure.
    Error,
}

/// Whether an error is worth retrying: timeouts, rate limits and server errors.
pub open spec fn spec_is_retryable(e: LettaErrorView) -> bool {
    match e {
        LettaErrorView::RequestTimeout { .. } => true,
        LettaErrorView::RateLimit { .. } => true,
        LettaErrorView::Api { status, .. } => 500 <= status <= 599,
        _ => false,
    }
}

/// `Debug` of an `Option<u64>`.
pub open spec fn debug_opt_u64(o: Option<u64>) -> Seq<char> {
    match o {
        Some(n) => "Some("@ + crate::text::dec(n as nat) + ")"@,
        None => "None"@,
    }
}

/// The error's display text.
pub open spec fn error_display(e: LettaErrorView) -> Seq<char> {
    match e {
        LettaErrorView::Http { message, .. } => "HTTP request failed: "@ + message,
        LettaErrorView::Auth { message } => "Authentication failed: "@ + message,
        LettaErrorView::Api { status, message, .. } => "API error "@ + crate::text::dec(status as nat) + ": "@ + message,
        LettaErrorView::Serde { .. } => "Serialization error"@,
        LettaErrorView::Streaming { message, .. } => "Streaming error: "@ + message,
        LettaErrorView::Config { message } => "Configuration error: "@ + message,
        LettaErrorView::Url { .. } => "Invalid URL"@,
        LettaErrorView::Io { .. } => "I/O error"@,
        LettaErrorView::UrlEncoding { .. } => "URL encoding error"@,
        LettaErrorView::RequestTimeout { seconds } => "Request timed out after "@ + crate::text::dec(seconds as nat) + " seconds"@,
        LettaErrorView::RateLimit { retry_after } => "Rate limit exceeded. Retry after "@ + debug_opt_u64(retry_after) + " seconds"@,
        LettaErrorView::NotFound { resource_type, id } => "Resource not found: "@ + resource_type + " with ID "@ + id,
        LettaErrorView::Validation { message, .. } => "Validation error: "@ + message,
    }
}

/// The diagnostic code of an error.
pub open spec fn error_code_text(e: LettaErrorView) -> Seq<char> {
    match e {
        LettaErrorView::Http { .. } => "letta::http"@,
        LettaErrorView::Auth { .. } => "letta::auth"@,
        LettaErrorView::Api { code, .. } => match code {
            Some(c) => "letta::api::"@ + c,
            None => "letta::api"@,
        },
        LettaErrorView::Serde { .. } => "letta::serde"@,
        LettaErrorView::Streaming { .. } => "letta::streaming"@,
        LettaErrorView::Config { .. } => "letta::config"@,
        LettaErrorView::Url { .. } => "letta::url"@,
        LettaErrorView::Io { .. } => "letta::io"@,
        LettaErrorView::UrlEncoding { .. } => "letta::url_encoding"@,
        LettaErrorView::RequestTimeout { .. } => "letta::timeout"@,
        LettaErrorView::RateLimit { .. } => "letta::rate_limit"@,
        LettaErrorView::NotFound { .. } => "letta::not_found"@,
        LettaErrorView::Validation { .. } => "letta::validation"@,
    }
}

/// The help text of an error, if it has one.
pub open spec fn error_help(e: LettaErrorView) -> Option<Seq<char>> {
    match e {
        LettaErrorView::Auth { .. } => Some(
            "Check your API key or authentication configuration. For local servers, ensure the server is running and accessible."@,
        ),
        LettaErrorView::Api { status, url, method, .. } => if status == 401 {
            let base = "Your API key is invalid or expired. Please check your authentication credentials."@;
            match url {
                Some(u) => Some(base + "\nFailed request: "@ + match method {
                    Some(m) => m,
                    None => "?"@,
                } + " "@ + u),
                None => Some(base),
            }
        } else if status == 403 {
            Some("You don't have permission to access this resource. Check your API key permissions."@)
        } else if status == 404 {
            let base = "The requested resource was not found. Verify the resource ID and that it exists."@;
            match url {
                Some(u) => Some(base + "\nRequested URL: "@ + u),
                None => Some(base),
            }
        } else if status == 429 {
            Some("You're being rate limited. Please wait before making more requests."@)
        } else if 500 <= status <= 599 {
            let base = "The server encountered an error. Please try again later or contact support."@;
            match (url, method) {
                (Some(u), Some(m)) => Some(base + "\nFailed request: "@ + m + " "@ + u),
                _ => Some(base),
            }
        } else {
            None
        },
        LettaErrorView::Config { .. } => Some(
            "Check your client configuration, including base URL and authentication settings."@,
        ),
        LettaErrorView::RequestTimeout { .. } => Some(
            "The request took too long. Try increasing the timeout or check your network connection."@,
        ),
        LettaErrorView::RateLimit { retry_after } => match retry_after {
            Some(s) => Some("Wait "@ + crate::text::dec(s as nat) + " seconds before making another request."@),
            None => None,
        },
        LettaErrorView::Validation { field, .. } => match field {
            Some(f) => Some("Check the '"@ + f + "' field value and ensure it meets the API requirements."@),
            None => None,
        },
        _ => None,
    }
}

/// The severity of an error, if it has one.
pub open spec fn error_severity(e: LettaErrorView) -> Option<Severity> {
    match e {
        LettaErrorView::Config { .. } => Some(Severity::Warning),
        LettaErrorView::Validation { .. } => Some(Severity::Warning),
        LettaErrorView::Auth { .. } => Some(Severity::Error),
        LettaErrorView::Api { status, .. } => if status == 401 || status == 403 || (500 <= status <= 599) {
            Some(Severity::Error)
        } else {
            None
        },
        _ => None,
    }
}

} // verus!

verus! {

fn concat2(a: &str, b: &str) -> (r: String)
    ensures
        r@ == a@ + b@,
{
    let mut v: Vec<char> = Vec::new();
    push_str(&mut v, a);
    push_str(&mut v, b);
    string_of(&v)
}

fn concat3(a: &str, b: &str, c: &str) -> (r: String)
    ensures
        r@ == a@ + b@ + c@,
{
    let mut v: Vec<char> = Vec::new();
    push_str(&mut v, a);
    push_str(&mut v, b);
    push_str(&mut v, c);
    string_of(&v)
}

fn dec_string(n: u64) -> (r: String)
    ensures
        r@ == crate::text::dec(n as nat),
{
    let d = crate::text::dec_chars(n);
    string_of(&d)
}

impl LettaError {
    /// Create a new authentication error.
    pub fn auth(message: &str) -> (r: Self)
        ensures
            r@ == (LettaErrorView::Auth { message: message@ }),
    {
        LettaError::Auth { message: message.to_string() }
    }

    /// Create a new API error.
    pub fn api(status: u16, message: &str) -> (r: Self)
        ensures
            r@ == (LettaErrorView::Api {
                status,
                message: message@,
                code: None,
                body: ErrorBodyView::Text(Seq::empty()),
                url: None,
                method: None,
            }),
    {
        LettaError::Api {
            status,
            message: message.to_string(),
            code: None,
            body: ErrorBody::Text(String::new()),
            url: None,
            method: None,
        }
    }

    /// Create a new API error with error code.
    pub fn api_with_code(status: u16, message: &str, code: &str) -> (r: Self)
        ensures
            r@ == (LettaErrorView::Api {
                status,
                message: message@,
                code: Some(code@),
                body: ErrorBodyView::Text(Seq::empty()),
                url: None,
                method: None,
            }),
    {
        LettaError::Api {
            status,
            message: message.to_string(),
            code: Some(code.to_string()),
            body: ErrorBody::Text(String::new()),
            url: None,
            method: None,
        }
    }

    /// Create a new API error with specific error body; the code is the body's.
    pub fn api_with_body(status: u16, message: &str, body: ErrorBody) -> (r: Self)
        ensures
            r@ == (LettaErrorView::Api {
                status,
                message: message@,
                code: body_code(body@),
                body: body@,
                url: None,
                method: None,
            }),
    {
        let code = body.code();
        LettaError::Api { status, message: message.to_string(), code, body, url: None, method: None }
    }

    /// Create a new streaming error.
    pub fn streaming(message: &str) -> (r: Self)
        ensures
            r@ == (LettaErrorView::Streaming { message: message@, source: None }),
    {
        LettaError::Streaming { message: message.to_string(), source: None }
    }

    /// Create a new streaming error with the description of its source error.
    pub fn streaming_with_source(message: &str, source: &str) -> (r: Self)
        ensures
            r@ == (LettaErrorView::Streaming { message: message@, source: Some(source@) }),
    {
        LettaError::Streaming { message: message.to_string(), source: Some(source.to_string()) }
    }

    /// Create a new configuration error.
    pub fn config(message: &str) -> (r: Self)
        ensures
            r@ == (LettaErrorView::Config { message: message@ }),
    {
        LettaError::Config { message: message.to_string() }
    }

    /// Create a new not found error.
    pub fn not_found(resource_type: &str, id: &str) -> (r: Self)
        ensures
            r@ == (LettaErrorView::NotFound { resource_type: resource_type@, id: id@ }),
    {
        LettaError::NotFound { resource_type: resource_type.to_string(), id: id.to_string() }
    }

    /// Create a new validation error.
    pub fn validation(message: &str) -> (r: Self)
        ensures
            r@ == (LettaErrorView::Validation { message: message@, field: None }),
    {
        LettaError::Validation { message: message.to_string(), field: None }
    }

    /// Create a new validation error for a specific field.
    pub fn validation_field(message: &str, field: &str) -> (r: Self)
        ensures
            r@ == (LettaErrorView::Validation { message: message@, field: Some(field@) }),
    {
        LettaError::Validation { message: message.to_string(), field: Some(field.to_string()) }
    }

    /// Create a new request timeout error.
    pub fn request_timeout(seconds: u64) -> (r: Self)
        ensures
            r@ == (LettaErrorView::RequestTimeout { seconds }),
    {
        LettaError::RequestTimeout { seconds }
    }

    /// Create a new rate limit error.
    pub fn rate_limit(retry_after: Option<u64>) -> (r: Self)
        ensures
            r@ == (LettaErrorView::RateLimit { retry_after }),
    {
        LettaError::RateLimit { retry_after }
    }

    /// Check if this error is retryable.
    pub fn is_retryable(&self) -> (r: bool)
        ensures
            r == spec_is_retryable(self@),
    {
        match self {
            LettaError::RequestTimeout { .. } => true,
            LettaError::RateLimit { .. } => true,
            LettaError::Api { status, .. } => 500 <= *status && *status <= 599,
            _ => false,
        }
    }

    /// Get the HTTP status code if this is an API error.
    pub fn status_code(&self) -> (r: Option<u16>)
        ensures
            r == match self@ {
                LettaErrorView::Api { status, .. } => Some(status),
                _ => None,
            },
    {
        match self {
            LettaError::Api { status, .. } => Some(*status),
            _ => None,
        }
    }

    /// Get the structured response body if this is an API error.
    pub fn response_body(&self) -> (r: Option<&ErrorBody>)
        ensures
            match self@ {
                LettaErrorView::Api { body, .. } => r matches Some(b) && b@ == body,
                _ => r is None,
            },
    {
        match self {
            LettaError::Api { body, .. } => Some(body),
            _ => None,
        }
    }

    /// Get the error code if this is an API error.
    pub fn error_code(&self) -> (r: Option<&str>)
        ensures
            opt_str_view(r) == match self@ {
                LettaErrorView::Api { code, .. } => code,
                _ => None,
            },
    {
        match self {
            LettaError::Api { code, .. } => match code {
                Some(c) => Some(c.as_str()),
                None => None,
            },
            _ => None,
        }
    }

    /// Check if this is an API error with an unauthorized body.
    pub fn is_unauthorized(&self) -> (r: bool)
        ensures
            r == (self@ matches LettaErrorView::Api { body: ErrorBodyView::Unauthorized(..), .. }),
    {
        match self {
            LettaError::Api { body: ErrorBody::Unauthorized(_), .. } => true,
            _ => false,
        }
    }

    /// Check if this is a validation error.
    pub fn is_validation_error(&self) -> (r: bool)
        ensures
            r == match self@ {
                LettaErrorView::Api { body, .. } => body_is_validation_error(body),
                LettaErrorView::Validation { .. } => true,
                _ => false,
            },
    {
        match self {
            LettaError::Api { body, .. } => body.is_validation_error(),
            LettaError::Validation { .. } => true,
            _ => false,
        }
    }

    /// Get the unauthorized error details if this is an unauthorized error.
    pub fn unauthorized_details(&self) -> (r: Option<(&str, &str, &str)>)
        ensures
            match self@ {
                LettaErrorView::Api { body: ErrorBodyView::Unauthorized(m, d, o), .. } =>
                    r matches Some(t) && t.0@ == m && t.1@ == d && t.2@ == o,
                _ => r is None,
            },
    {
        match self {
            LettaError::Api { body: ErrorBody::Unauthorized(err), .. } => Some(
                (err.message.as_str(), err.details.as_str(), err.ownership.as_str()),
            ),
            _ => None,
        }
    }

    /// The error's display text.
    pub fn to_string(&self) -> (r: String)
        ensures
            r@ == error_display(self@),
    {
        match self {
            LettaError::Http { message, .. } => concat2("HTTP request failed: ", message.as_str()),
            LettaError::Auth { message } => concat2("Authentication failed: ", message.as_str()),
            LettaError::Api { status, message, .. } => {
                let d = dec_string(*status as u64);
                let mut v: Vec<char> = Vec::new();
                push_str(&mut v, "API error ");
                push_str(&mut v, d.as_str());
                push_str(&mut v, ": ");
                push_str(&mut v, message.as_str());
                string_of(&v)
            },
            LettaError::Serde { .. } => "Serialization error".to_string(),
            LettaError::Streaming { message, .. } => concat2("Streaming error: ", message.as_str()),
            LettaError::Config { message } => concat2("Configuration error: ", message.as_str()),
            LettaError::Url { .. } => "Invalid URL".to_string(),
            LettaError::Io { .. } => "I/O error".to_string(),
            LettaError::UrlEncoding { .. } => "URL encoding error".to_string(),
            LettaError::RequestTimeout { seconds } => {
                let d = dec_string(*seconds);
                concat3("Request timed out after ", d.as_str(), " seconds")
            },
            LettaError::RateLimit { retry_after } => {
                let dbg = match retry_after {
                    Some(n) => {
                        let d = dec_string(*n);
                        concat3("Some(", d.as_str(), ")")
                    },
                    None => "None".to_string(),
                };
                concat3("Rate limit exceeded. Retry after ", dbg.as_str(), " seconds")
            },
            LettaError::NotFound { resource_type, id } => {
                let mut v: Vec<char> = Vec::new();
                push_str(&mut v, "Resource not found: ");
                push_str(&mut v, resource_type.as_str());
                push_str(&mut v, " with ID ");
                push_str(&mut v, id.as_str());
                string_of(&v)
            },
            LettaError::Validation { message, .. } => concat2("Validation error: ", message.as_str()),
        }
    }

    /// The diagnostic code of this error.
    pub fn diagnostic_code(&self) -> (r: String)
        ensures
            r@ == error_code_text(self@),
    {
        match self {
            LettaError::Http { .. } => "letta::http".to_string(),
            LettaError::Auth { .. } => "letta::auth".to_string(),
            LettaError::Api { code, .. } => match code {
                Some(c) => concat2("letta::api::", c.as_str()),
                None => "letta::api".to_string(),
            },
            LettaError::Serde { .. } => "letta::serde".to_string(),
            LettaError::Streaming { .. } => "letta::streaming".to_string(),
            LettaError::Config { .. } => "letta::config".to_string(),
            LettaError::Url { .. } => "letta::url".to_string(),
            LettaError::Io { .. } => "letta::io".to_string(),
            LettaError::UrlEncoding { .. } => "letta::url_encoding".to_string(),
            LettaError::RequestTimeout { .. } => "letta::timeout".to_string(),
            LettaError::RateLimit { .. } => "letta::rate_limit".to_string(),
            LettaError::NotFound { .. } => "letta::not_found".to_string(),
            LettaError::Validation { .. } => "letta::validation".to_string(),
        }
    }

    /// The help text of this error, if it has one.
    pub fn help(&self) -> (r: Option<String>)
        ensures
            opt_string_view(r) == error_help(self@),
    {
        match self {
            LettaError::Auth { .. } => Some(
                "Check your API key or authentication configuration. For local servers, ensure the server is running and accessible.".to_string(),
            ),
            LettaError::Api { status, url, method, .. } => {
                let status = *status;
                if status == 401 {
                    let mut v: Vec<char> = Vec::new();
                    push_str(&mut v, "Your API key is invalid or expired. Please check your authentication credentials.");
                    if let Some(u) = url {
                        push_str(&mut v, "\nFailed request: ");
                        match method {
                            Some(m) => push_str(&mut v, m.as_str()),
                            None => push_str(&mut v, "?"),
                        }
                        push_str(&mut v, " ");
                        push_str(&mut v, u.as_str());
                    }
                    Some(string_of(&v))
                } else if status == 403 {
                    Some("You don't have permission to access this resource. Check your API key permissions.".to_string())
                } else if status == 404 {
                    let mut v: Vec<char> = Vec::new();
                    push_str(&mut v, "The requested resource was not found. Verify the resource ID and that it exists.");
                    if let Some(u) = url {
                        push_str(&mut v, "\nRequested URL: ");
                        push_str(&mut v, u.as_str());
                    }
                    Some(string_of(&v))
                } else if status == 429 {
                    Some("You're being rate limited. Please wait before making more requests.".to_string())
                } else if 500 <= status && status <= 599 {
                    let mut v: Vec<char> = Vec::new();
                    push_str(&mut v, "The server encountered an error. Please try again later or contact support.");
                    if let (Some(u), Some(m)) = (url, method) {
                        push_str(&mut v, "\nFailed request: ");
                        push_str(&mut v, m.as_str());
                        push_str(&mut v, " ");
                        push_str(&mut v, u.as_str());
                    }
                    Some(string_of(&v))
                } else {
                    None
                }
            },
            LettaError::Config { .. } => Some(
                "Check your client configuration, including base URL and authentication settings.".to_string(),
            ),
            LettaError::RequestTimeout { .. } => Some(
                "The request took too long. Try increasing the timeout or check your network connection.".to_string(),
            ),
            LettaError::RateLimit { retry_after } => match retry_after {
                Some(s) => {
                    let d = dec_string(*s);
                    Some(concat3("Wait ", d.as_str(), " seconds before making another request."))
                },
                None => None,
            },
            LettaError::Validation { field, .. } => match field {
                Some(f) => Some(concat3("Check the '", f.as_str(), "' field value and ensure it meets the API requirements.")),
                None => None,
            },
            _ => None,
        }
    }

    /// The severity of this error, if it has one.
    pub fn severity(&self) -> (r: Option<Severity>)
        ensures
            r == error_severity(self@),
    {
        match self {
            LettaError::Config { .. } => Some(Severity::Warning),
            LettaError::Validation { .. } => Some(Severity::Warning),
            LettaError::Auth { .. } => Some(Severity::Error),
            LettaError::Api { status, .. } => if *status == 401 || *status == 403 || (500 <= *status && *status <= 599) {
                Some(Severity::Error)
            } else {
                None
            },
            _ => None,
        }
    }
}

/// Law: in an unstructured JSON error body with no `message` key, an `error` key that
/// holds a string gives the body's message; a failed response with that body carries
/// that text as its message, and on a status that is not classified otherwise it is
/// an API error with that message, not the status's default text.
pub proof fn law_error_key_gives_message(
    status: u16,
    body: Seq<char>,
    retry_after: Option<Seq<char>>,
    url: Option<Seq<char>>,
    method: Option<Seq<char>>,
    d: JsonDocView,
    c: Seq<char>,
    s: Seq<char>,
)
    requires
        spec_error_body(body) == ErrorBodyView::Json(d),
        value_get(d.value, "message"@) is None,
        value_get(d.value, "error"@) == Some(c),
        child_str(c) == Some(s),
    ensures
        body_message(ErrorBodyView::Json(d)) == Some(s),
        response_message(status, body) == s,
        !(status == 401 || status == 404 || status == 422 || status == 429 || status == 408 || status == 504)
            ==> (spec_from_response(status, body, retry_after, url, method) matches LettaErrorView::Api {
            message,
            ..
        } && message == s),
{
    let keys = seq!["message"@, "error"@, "detail"@];
    assert(keys[0] == "message"@);
    assert(keys.drop_first()[0] == "error"@);
    assert(value_get_first(d.value, keys.drop_first()) == Some(c));
    assert(value_get_first(d.value, keys) == Some(c));
}

proof fn lemma_get_first_of_three(v: JsonValueView, k0: Seq<char>, k1: Seq<char>, k2: Seq<char>)
    ensures
        value_get_first(v, seq![k0, k1, k2]) == match value_get(v, k0) {
            Some(c) => Some(c),
            None => match value_get(v, k1) {
                Some(c) => Some(c),
                None => value_get(v, k2),
            },
        },
{
    let keys = seq![k0, k1, k2];
    assert(keys.drop_first() =~= seq![k1, k2]);
    assert(keys.drop_first().drop_first() =~= seq![k2]);
    assert(keys.drop_first().drop_first().drop_first() =~= Seq::<Seq<char>>::empty());
    reveal_with_fuel(value_get_first, 4);
}

/// Law: an unstructured JSON error body takes its message from `message`, else
/// `error`, else `detail` (the first of these keys present, when it holds a string),
/// its code from `code`, else `error_code`, else `type`, and its retry delay from
/// `retry_after`, else `retryAfter`, else `retry-after`; without any of the keys there
/// is no message, code or delay.
pub proof fn law_json_body_key_order(d: JsonDocView)
    ensures
        body_message(ErrorBodyView::Json(d)) == match value_get(d.value, "message"@) {
            Some(c) => child_str(c),
            None => match value_get(d.value, "error"@) {
                Some(c) => child_str(c),
                None => match value_get(d.value, "detail"@) {
                    Some(c) => child_str(c),
                    None => None,
                },
            },
        },
        body_code(ErrorBodyView::Json(d)) == match value_get(d.value, "code"@) {
            Some(c) => child_str(c),
            None => match value_get(d.value, "error_code"@) {
                Some(c) => child_str(c),
                None => match value_get(d.value, "type"@) {
                    Some(c) => child_str(c),
                    None => None,
                },
            },
        },
        body_retry_after(ErrorBodyView::Json(d)) == match value_get(d.value, "retry_after"@) {
            Some(c) => crate::json::child_u64(c),
            None => match value_get(d.value, "retryAfter"@) {
                Some(c) => crate::json::child_u64(c),
                None => match value_get(d.value, "retry-after"@) {
                    Some(c) => crate::json::child_u64(c),
                    None => None,
                },
            },
        },
{
    lemma_get_first_of_three(d.value, "message"@, "error"@, "detail"@);
    lemma_get_first_of_three(d.value, "code"@, "error_code"@, "type"@);
    lemma_get_first_of_three(d.value, "retry_after"@, "retryAfter"@, "retry-after"@);
}

/// Law: how a failed response is classified. Its message is the body's, else the
/// status's default text. A 401 is an authentication error unless the body is the
/// structured unauthorized one; a 422 is a validation error; a 429 is a rate limit
/// whose delay is the `retry-after` header when that is a number; 408 and 504 are a
/// 60 second timeout; a 404 is a not-found error or an API error with status 404;
/// every other status is an API error keeping the status, the message, the body's
/// code and the body.
pub proof fn law_response_classification(
    status: u16,
    body: Seq<char>,
    retry_after: Option<Seq<char>>,
    url: Option<Seq<char>>,
    method: Option<Seq<char>>,
)
    ensures
        body_message(spec_error_body(body)) is None ==> response_message(status, body) == default_message(status),
        body_message(spec_error_body(body)) matches Some(m) ==> response_message(status, body) == m,
        status == 401 && !(spec_error_body(body) is Unauthorized) ==> spec_from_response(
            status,
            body,
            retry_after,
            url,
            method,
        ) == (LettaErrorView::Auth { message: response_message(status, body) }),
        status == 422 ==> (spec_from_response(status, body, retry_after, url, method) matches LettaErrorView::Validation {
            message,
            ..
        } && message == response_message(status, body)),
        status == 429 ==> (spec_from_response(status, body, retry_after, url, method) matches LettaErrorView::RateLimit {
            retry_after: delay,
        } && (retry_after is Some && crate::text::parse_u64(retry_after->0) is Some ==> delay == crate::text::parse_u64(
            retry_after->0,
        ))),
        status == 408 || status == 504 ==> spec_from_response(status, body, retry_after, url, method) == (LettaErrorView::RequestTimeout { seconds: 60 }),
        status == 404 ==> (spec_from_response(status, body, retry_after, url, method) is NotFound || (spec_from_response(
            status,
            body,
            retry_after,
            url,
            method,
        ) matches LettaErrorView::Api { status: s, .. } && s == 404)),
        !(status == 401 || status == 404 || status == 422 || status == 429 || status == 408 || status == 504)
            ==> spec_from_response(status, body, retry_after, url, method) == (LettaErrorView::Api {
            status,
            message: response_message(status, body),
            code: body_code(spec_error_body(body)),
            body: spec_error_body(body),
            url,
            method,
        }),
{
}

} // verus!
