//! A response, and the text that goes back over the wire for it.

use crate::bridge::json_text_of;
use crate::http::http_header::{block_text, html_lines, json_lines, options_lines, put};
use crate::http::http_header::session_cookie;
use crate::http::http_header::{HttpHeader, HttpHeaderType, HttpStatus, Line};
use crate::json::{JsonMember, JsonValue, JsonView};
use crate::text::{chars_of, decimal, string_of_range, trim_end_nul, usize_to_string};
use vstd::prelude::*;
use vstd::utf8::encode_utf8;

verus! {

/// A response: status, headers and body.
pub struct HttpResponse {
    pub status: HttpStatus,
    pub headers: HttpHeader,
    pub body: String,
}

/// The mathematical value of a response.
pub struct ResponseView {
    pub status: HttpStatus,
    pub headers: Seq<Line>,
    pub body: Seq<char>,
}

impl View for HttpResponse {
    type V = ResponseView;

    open spec fn view(&self) -> ResponseView {
        ResponseView { status: self.status, headers: self.headers@, body: self.body@ }
    }
}

/// Which header lines a response carries.
pub enum HeaderKind {
    /// The lines of a JSON response.
    Json,
    /// The lines of an HTML response.
    Html,
    /// The lines that answer a cross-origin preflight.
    Options,
    /// The lines of a JSON response, and the cookie that hands this session
    /// to the client.
    Session(Seq<char>),
}

/// The header lines of a kind, for a response made at the time `timestamp`.
pub open spec fn kind_lines(kind: HeaderKind, timestamp: i64) -> Seq<Line> {
    match kind {
        HeaderKind::Json => json_lines(timestamp),
        HeaderKind::Html => html_lines(timestamp),
        HeaderKind::Options => options_lines(timestamp),
        HeaderKind::Session(id) => put(
            put(json_lines(timestamp), HttpHeaderType::SetCookie.name(), session_cookie(id)),
            HttpHeaderType::AcExposeHeaders.name(),
            HttpHeaderType::SessionID.name(),
        ),
    }
}

impl ResponseView {
    /// Whether the response has this status and this body, and carries the
    /// header lines of this kind for some time.
    pub open spec fn is(self, status: HttpStatus, kind: HeaderKind, body: Seq<char>) -> bool {
        self.status == status && self.body == body && exists|timestamp: i64|
            self.headers == #[trigger] kind_lines(kind, timestamp)
    }
}

/// The body of a response that reports an error: the JSON text of an object
/// with the one member `error`.
pub open spec fn error_text(message: Seq<char>) -> Seq<char> {
    trim_end_nul(error_body(message))
}

/// What stands before the body in the text of a response: the status line,
/// the length of the body in bytes, the headers, and the empty line.
pub open spec fn head_text(r: ResponseView) -> Seq<char> {
    "HTTP/1.1 "@ + r.status.line() + seq!['\r', '\n'] + HttpHeaderType::ContentLength.name()
        + seq![':', ' '] + decimal(encode_utf8(r.body).len()) + seq!['\r', '\n'] + block_text(
        r.headers,
    ) + seq!['\r', '\n', '\r', '\n']
}

/// The text of a response: the head, then the body.
pub open spec fn response_text(r: ResponseView) -> Seq<char> {
    head_text(r) + r.body
}

/// The JSON text of an object with the one member `error`, a string.
pub open spec fn error_body(message: Seq<char>) -> Seq<char> {
    json_text_of(JsonView::Object(seq![("error"@, JsonView::String(message))]))
}

/// The page that says that nothing was found.
pub open spec fn not_found_page() -> Seq<char> {
    "<html><body><h1>404 Not Found</h1></body></html>"@
}

/// The text of `hint`, or the empty text where there is none.
pub open spec fn hint_text(hint: Option<&str>) -> Seq<char> {
    match hint {
        Some(h) => h@,
        None => Seq::empty(),
    }
}

/// The text of a response begins with the protocol version and the status
/// line. The bytes that a response puts on the wire are the bytes of its head
/// followed by the bytes of its body, and the length that the head declares
/// is the number of the body's bytes: read back as a number, the declared
/// length is that number.
pub proof fn lemma_content_length_is_exact(r: ResponseView)
    ensures
        ("HTTP/1.1 "@ + r.status.line()).is_prefix_of(response_text(r)),
        encode_utf8(response_text(r)) == encode_utf8(head_text(r)) + encode_utf8(r.body),
        encode_utf8(response_text(r)).len() == encode_utf8(head_text(r)).len() + encode_utf8(
            r.body,
        ).len(),
        crate::text::parse_unsigned(
            decimal(encode_utf8(r.body).len()),
            encode_utf8(r.body).len(),
        ) == Some(encode_utf8(r.body).len()),
{
    crate::text::lemma_encode_concat(head_text(r), r.body);
    crate::text::lemma_parse_decimal(encode_utf8(r.body).len(), encode_utf8(r.body).len());
}

impl HttpResponse {
    /// A response made of its three parts; the NUL characters that pad the
    /// body at its end are dropped.
    pub fn new(status: HttpStatus, header: HttpHeader, body: String) -> (r: HttpResponse)
        ensures
            r@.status == status,
            r@.headers == header@,
            r@.body == trim_end_nul(body@),
    {
        let chars = chars_of(body.as_str());
        let end = crate::text::trim_end_nul_len(chars.as_slice());
        let trimmed = string_of_range(chars.as_slice(), 0, end);
        HttpResponse { status, headers: header, body: trimmed }
    }

    /// The response `200 OK` with a JSON body.
    pub fn from_vec(body: String) -> (r: HttpResponse)
        ensures
            r@.is(HttpStatus::OK, HeaderKind::Json, trim_end_nul(body@)),
    {
        HttpResponse::json(HttpStatus::OK, body)
    }

    /// The text that goes over the wire.
    pub fn to_string(&self) -> (s: String)
        ensures
            s@ == response_text(self@),
    {
        let mut s = String::from_str("HTTP/1.1 ");
        s.append(self.status.as_str());
        s.push('\r');
        s.push('\n');
        s.append(HttpHeaderType::ContentLength.as_str());
        s.push(':');
        s.push(' ');
        let length: usize = self.body.as_str().as_bytes().len();
        s.append(usize_to_string(length).as_str());
        s.push('\r');
        s.push('\n');
        s.append(self.headers.to_string().as_str());
        s.push('\r');
        s.push('\n');
        s.push('\r');
        s.push('\n');
        s.append(self.body.as_str());
        s
    }

    /// The bytes that go over the wire.
    pub fn to_bytes(&self) -> (b: Vec<u8>)
        ensures
            b@ == encode_utf8(response_text(self@)),
    {
        let s = self.to_string();
        vstd::slice::slice_to_vec(s.as_str().as_bytes())
    }

    /// The JSON text of an object with the one member `error`.
    fn error_json(message: &str) -> (s: String)
        ensures
            s@ == error_body(message@),
    {
        let mut members: Vec<JsonMember> = Vec::new();
        members.push(
            JsonMember {
                name: String::from_str("error"),
                value: JsonValue::String(String::from_str(message)),
            },
        );
        let document = JsonValue::Object(members);
        proof {
            JsonValue::lemma_object_view(members);
            assert(document@->Object_0 =~= seq![("error"@, JsonView::String(message@))]);
        }
        crate::bridge::json_text(&document)
    }

    /// A response with the header lines of a JSON response made now.
    fn json(status: HttpStatus, body: String) -> (r: HttpResponse)
        ensures
            r@.is(status, HeaderKind::Json, trim_end_nul(body@)),
    {
        let header = HttpHeader::default_json();
        assert(forall|timestamp: i64|
            json_lines(timestamp) == kind_lines(HeaderKind::Json, timestamp));
        HttpResponse::new(status, header, body)
    }

    /// `404 Not Found`, as an HTML page.
    pub fn html_404() -> (r: HttpResponse)
        ensures
            r@.is(HttpStatus::NotFound, HeaderKind::Html, trim_end_nul(not_found_page())),
    {
        let header = HttpHeader::default_html();
        assert(forall|timestamp: i64|
            html_lines(timestamp) == kind_lines(HeaderKind::Html, timestamp));
        HttpResponse::new(
            HttpStatus::NotFound,
            header,
            String::from_str("<html><body><h1>404 Not Found</h1></body></html>"),
        )
    }

    /// `200 OK` with an HTML page.
    pub fn html_page(content: String) -> (r: HttpResponse)
        ensures
            r@.is(HttpStatus::OK, HeaderKind::Html, content@),
    {
        let header = HttpHeader::default_html();
        assert(forall|timestamp: i64|
            html_lines(timestamp) == kind_lines(HeaderKind::Html, timestamp));
        HttpResponse { status: HttpStatus::OK, headers: header, body: content }
    }

    /// `404 Not Found`, as JSON: the error names the resource.
    pub fn json_404(resource: &str) -> (r: HttpResponse)
        ensures
            r@.is(HttpStatus::NotFound, HeaderKind::Json, error_text(resource@ + " not found"@)),
    {
        let mut message = String::from_str(resource);
        message.append(" not found");
        HttpResponse::json(HttpStatus::NotFound, HttpResponse::error_json(message.as_str()))
    }

    /// The answer to a cross-origin preflight: `204 No Content`.
    pub fn options_response() -> (r: HttpResponse)
        ensures
            r@.is(HttpStatus::NoContent, HeaderKind::Options, Seq::empty()),
    {
        let header = HttpHeader::default_options();
        assert(forall|timestamp: i64|
            options_lines(timestamp) == kind_lines(HeaderKind::Options, timestamp));
        let r = HttpResponse::new(HttpStatus::NoContent, header, String::new());
        assert(r@.body =~= Seq::<char>::empty());
        r
    }

    /// `204 No Content`, with the cookie that hands the session `session_id`
    /// to the client.
    pub fn session_response(session_id: String) -> (r: HttpResponse)
        ensures
            r@.is(HttpStatus::NoContent, HeaderKind::Session(session_id@), Seq::empty()),
    {
        let header = HttpHeader::default_json();
        let ghost before = header@;
        let header = header.set_session(session_id);
        assert(forall|timestamp: i64|
            before == json_lines(timestamp) ==> header@ == kind_lines(
                HeaderKind::Session(session_id@),
                timestamp,
            ));
        let r = HttpResponse::new(HttpStatus::NoContent, header, String::new());
        assert(r@.body =~= Seq::<char>::empty());
        r
    }

    /// `400 Bad Request`, with the error as JSON.
    pub fn bad_request(error_msg: &str) -> (r: HttpResponse)
        ensures
            r@.is(HttpStatus::BadRequest, HeaderKind::Json, error_text(error_msg@)),
    {
        HttpResponse::json(HttpStatus::BadRequest, HttpResponse::error_json(error_msg))
    }

    /// `400 Bad Request` for a request that lacks its body; `msg` may say
    /// what the body should hold.
    pub fn missing_body(msg: Option<&str>) -> (r: HttpResponse)
        ensures
            r@.is(
                HttpStatus::BadRequest,
                HeaderKind::Json,
                error_text("Missing request body."@ + hint_text(msg)),
            ),
    {
        let mut message = String::from_str("Missing request body.");
        if let Some(hint) = msg {
            message.append(hint);
        }
        HttpResponse::bad_request(message.as_str())
    }

    /// `400 Bad Request` for a request whose body cannot be used; `msg` may
    /// say what the body should hold.
    pub fn invalid_body(msg: Option<&str>) -> (r: HttpResponse)
        ensures
            r@.is(
                HttpStatus::BadRequest,
                HeaderKind::Json,
                error_text("Invalid request body."@ + hint_text(msg)),
            ),
    {
        let mut message = String::from_str("Invalid request body.");
        if let Some(hint) = msg {
            message.append(hint);
        }
        HttpResponse::bad_request(message.as_str())
    }

    /// `401 Unauthorized`.
    pub fn not_authorized() -> (r: HttpResponse)
        ensures
            r@.is(
                HttpStatus::Unauthorized,
                HeaderKind::Json,
                error_text("Invalid authentication credentials."@),
            ),
    {
        HttpResponse::json(
            HttpStatus::Unauthorized,
            HttpResponse::error_json("Invalid authentication credentials."),
        )
    }

    /// `403 Forbidden`.
    pub fn forbidden() -> (r: HttpResponse)
        ensures
            r@.is(HttpStatus::Forbidden, HeaderKind::Json, error_text("User not authorized."@)),
    {
        HttpResponse::json(HttpStatus::Forbidden, HttpResponse::error_json("User not authorized."))
    }

    /// `204 No Content`.
    pub fn no_content() -> (r: HttpResponse)
        ensures
            r@.is(HttpStatus::NoContent, HeaderKind::Json, Seq::empty()),
    {
        let r = HttpResponse::json(HttpStatus::NoContent, String::new());
        assert(r@.body =~= Seq::<char>::empty());
        r
    }
}

} // verus!
