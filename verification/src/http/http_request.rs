//! A request, as it is read off the bytes that a client sent.
//!
//! The head of a request is everything before the first empty line. Its first
//! line names the method and the path, with an optional query string; the
//! lines after it are headers. A body, if there is one, is JSON text.

use crate::bridge::{json_document, lowercase_of, query_pairs, utf8_lossy};
use crate::http::http_header::{block_text, put, put_all, HttpHeader, Line};
use crate::http::http_method::HttpMethod;
use crate::http::http_path::{HttpPath, PathKind};
use crate::json::{JsonValue, JsonView};
use crate::text::{chars_of, find_byte, find_bytes, find_char, first_index, first_index_from};
use crate::text::{first_match, join, lines, pairs_view, split, split_from, string_of_range};
use crate::text::{strip_cr, trim, trim_end_nul, trim_end_pattern};
use vstd::prelude::*;
use vstd::slice::slice_subrange;
use vstd::utf8::{decode_utf8, encode_utf8, valid_utf8};

verus! {

/// A pair of a query string: name and value.
pub type Parameter = (Seq<char>, Seq<char>);

/// A request: method, classified path, query parameters, headers and body.
pub struct HttpRequest {
    pub method: HttpMethod,
    pub path: HttpPath,
    pub parameters: Option<Vec<(String, String)>>,
    pub headers: HttpHeader,
    pub body: Option<JsonValue>,
}

/// The mathematical value of a request.
pub struct RequestView {
    pub method: HttpMethod,
    pub path: (PathKind, Seq<char>),
    pub parameters: Option<Seq<Parameter>>,
    pub headers: Seq<Line>,
    pub body: Option<JsonView>,
}

impl View for HttpRequest {
    type V = RequestView;

    open spec fn view(&self) -> RequestView {
        RequestView {
            method: self.method,
            path: self.path@,
            parameters: match self.parameters {
                Some(p) => Some(pairs_view(p@)),
                None => None,
            },
            headers: self.headers@,
            body: match self.body {
                Some(b) => Some(b@),
                None => None,
            },
        }
    }
}

/// The four bytes that end the head of a request: CR LF CR LF.
pub open spec fn delimiter() -> Seq<u8> {
    seq![13u8, 10u8, 13u8, 10u8]
}

/// How many bytes the protocol version and the line break after it take in
/// the first line of a request.
pub open spec fn version_len() -> int {
    10
}

/// The head of a request: what stands before the first delimiter, or the
/// whole buffer where there is none.
pub open spec fn head_of(buffer: Seq<u8>) -> Seq<u8> {
    match first_match(buffer, delimiter()) {
        Some(d) => buffer.take(d),
        None => buffer,
    }
}

/// The head cut at its first two spaces: the method token, the path with its
/// query string, and the rest. A part that the head does not reach is empty.
pub open spec fn head_parts(head: Seq<u8>) -> (Seq<u8>, Seq<u8>, Seq<u8>) {
    match first_index(head, 32u8) {
        None => (head, Seq::empty(), Seq::empty()),
        Some(i) => match first_index_from(head, 32u8, i + 1) {
            None => (head.take(i), head.skip(i + 1), Seq::empty()),
            Some(j) => (head.take(i), head.subrange(i + 1, j), head.skip(j + 1)),
        },
    }
}

/// The text that bytes encode, or the empty text where they are not
/// well-formed UTF-8.
pub open spec fn text_or_empty(bytes: Seq<u8>) -> Seq<char> {
    if valid_utf8(bytes) {
        decode_utf8(bytes)
    } else {
        Seq::empty()
    }
}

/// The header block of a head: what follows the protocol version and its
/// line break in the third part.
pub open spec fn header_block(rest: Seq<u8>) -> Seq<u8> {
    if rest.len() >= version_len() {
        rest.skip(version_len())
    } else {
        Seq::empty()
    }
}

/// The header that a line holds: the name is what stands before the first
/// colon, in lower case; the value is everything after that colon, as it
/// stands. A line without a colon holds an empty name and an empty value.
pub open spec fn header_of_line(line: Seq<char>) -> Line {
    match first_index(line, ':') {
        Some(i) => (lowercase_of(line.take(i)), line.skip(i + 1)),
        None => (lowercase_of(Seq::empty()), Seq::empty()),
    }
}

/// The headers of a header block: each line is put in turn, so that a later
/// line overwrites an earlier one of the same name.
pub open spec fn headers_of(block: Seq<u8>) -> Seq<Line> {
    put_all(
        Seq::empty(),
        lines(text_or_empty(block)).map_values(|l: Seq<char>| header_of_line(l)),
    )
}

/// The path of a request target: what stands before the first `?`.
pub open spec fn target_path(target: Seq<u8>) -> Seq<u8> {
    match first_index(target, 63u8) {
        Some(q) => target.take(q),
        None => target,
    }
}

/// The query string of a request target: what follows the first `?`.
pub open spec fn target_query(target: Seq<u8>) -> Seq<u8> {
    match first_index(target, 63u8) {
        Some(q) => target.skip(q + 1),
        None => Seq::empty(),
    }
}

/// The parameters that a query string holds: none for the empty query,
/// and what the decoder reads out of any other, in the order of the query.
pub open spec fn parameters_of(query: Seq<u8>) -> Seq<Parameter> {
    if query.len() == 0 {
        Seq::empty()
    } else {
        query_pairs(query)
    }
}

/// The request that a buffer holds, without its body.
pub open spec fn parse_head(buffer: Seq<u8>) -> RequestView {
    let (token, target, rest) = head_parts(head_of(buffer));
    RequestView {
        method: HttpMethod::parse_bytes(token),
        path: HttpPath::parse(trim(text_or_empty(target_path(target)))),
        parameters: Some(parameters_of(target_query(target))),
        headers: headers_of(header_block(rest)),
        body: None,
    }
}

/// The text of a body: the bytes decoded, without the NUL characters that
/// pad it at its end and without the delimiters after it.
pub open spec fn body_text(bytes: Seq<u8>) -> Seq<char> {
    trim_end_pattern(trim_end_nul(utf8_lossy(bytes)), seq!['\r', '\n', '\r', '\n'])
}

/// A parameter as it stands in a query string: name, `=`, value.
pub open spec fn parameter_text(parameter: Parameter) -> Seq<char> {
    parameter.0 + seq!['='] + parameter.1
}

/// The query string that writes the parameters, with its leading `?`; empty
/// where there are none.
pub open spec fn query_text(parameters: Option<Seq<Parameter>>) -> Seq<char> {
    match parameters {
        Some(p) => if p.len() > 0 {
            seq!['?'] + join(p.map_values(|x: Parameter| parameter_text(x)), seq!['&'])
        } else {
            Seq::empty()
        },
        None => Seq::empty(),
    }
}

/// Why a body could not be taken into a request.
pub open spec fn empty_body_message() -> Seq<char> {
    "Failed to parse request body to utf8 string"@
}

/// Why a body could not be taken into a request: the text is no JSON, and
/// `detail` says where.
pub open spec fn invalid_body_message(detail: Seq<char>) -> Seq<char> {
    "Failed to parse request body to json value: "@ + detail
}

/// What comes of a body once its text was handed to the JSON reader and
/// `parsed` came back: the document, or the reason why there is none. An
/// empty text is refused before `parsed` is looked at.
pub open spec fn body_result(text: Seq<char>, parsed: Result<JsonView, Seq<char>>) -> Result<
    JsonView,
    Seq<char>,
> {
    if text.len() == 0 {
        Err(empty_body_message())
    } else {
        match parsed {
            Ok(v) => Ok(v),
            Err(e) => Err(invalid_body_message(e)),
        }
    }
}

/// What comes of the bytes of a body: the JSON document that their text
/// holds, or the reason why there is none.
pub open spec fn body_outcome(bytes: Seq<u8>) -> Result<JsonView, Seq<char>> {
    body_result(body_text(bytes), json_document(body_text(bytes)))
}

/// The request written out: the first line, the headers, an empty line, and
/// the body as a debug print.
pub open spec fn request_text(r: RequestView) -> Seq<char> {
    r.method.token() + seq![' '] + r.path.0.prefix() + r.path.1 + query_text(r.parameters)
        + " HTTP/1.1\r\n"@ + block_text(r.headers) + "\r\n\r\n"@ + crate::bridge::json_debug_of(
        r.body,
    )
}

impl HttpRequest {
    /// A request made of its five parts.
    pub fn new(
        method: HttpMethod,
        path: HttpPath,
        parameters: Option<Vec<(String, String)>>,
        headers: HttpHeader,
        body: Option<JsonValue>,
    ) -> (r: Self)
        ensures
            r.method == method,
            r.path == path,
            r.parameters == parameters,
            r.headers == headers,
            r.body == body,
    {
        HttpRequest { method, path, parameters, headers, body }
    }

    /// The request that stands for a failure: method `Error`, the index path,
    /// and nothing else.
    pub fn error() -> (r: Self)
        ensures
            r@.method == HttpMethod::Error,
            r@.path == (PathKind::Index, Seq::<char>::empty()),
            r@.parameters is None,
            r@.headers == Seq::<Line>::empty(),
            r@.body is None,
    {
        HttpRequest {
            method: HttpMethod::Error,
            path: HttpPath::Index(String::new()),
            parameters: None,
            headers: HttpHeader::new(),
            body: None,
        }
    }

    /// A `GET` request.
    pub fn get(
        path: HttpPath,
        parameters: Option<Vec<(String, String)>>,
        headers: HttpHeader,
        body: Option<JsonValue>,
    ) -> (r: Self)
        ensures
            r.method == HttpMethod::Get,
            r.path == path,
            r.parameters == parameters,
            r.headers == headers,
            r.body == body,
    {
        HttpRequest { method: HttpMethod::Get, path, parameters, headers, body }
    }

    /// A `POST` request.
    pub fn post(
        path: HttpPath,
        parameters: Option<Vec<(String, String)>>,
        headers: HttpHeader,
        body: Option<JsonValue>,
    ) -> (r: Self)
        ensures
            r.method == HttpMethod::Post,
            r.path == path,
            r.parameters == parameters,
            r.headers == headers,
            r.body == body,
    {
        HttpRequest { method: HttpMethod::Post, path, parameters, headers, body }
    }

    /// A `PATCH` request.
    pub fn patch(
        path: HttpPath,
        parameters: Option<Vec<(String, String)>>,
        headers: HttpHeader,
        body: Option<JsonValue>,
    ) -> (r: Self)
        ensures
            r.method == HttpMethod::Patch,
            r.path == path,
            r.parameters == parameters,
            r.headers == headers,
            r.body == body,
    {
        HttpRequest { method: HttpMethod::Patch, path, parameters, headers, body }
    }

    /// A `DELETE` request.
    pub fn delete(
        path: HttpPath,
        parameters: Option<Vec<(String, String)>>,
        headers: HttpHeader,
        body: Option<JsonValue>,
    ) -> (r: Self)
        ensures
            r.method == HttpMethod::Delete,
            r.path == path,
            r.parameters == parameters,
            r.headers == headers,
            r.body == body,
    {
        HttpRequest { method: HttpMethod::Delete, path, parameters, headers, body }
    }

    /// The query string that writes the parameters: `?key1=val1&keyN=valN`,
    /// or nothing where there are no parameters.
    pub fn parameters_to_string(&self) -> (s: String)
        ensures
            s@ == query_text(self@.parameters),
    {
        let mut s = String::new();
        match &self.parameters {
            Some(params) => {
                let ghost texts = pairs_view(params@).map_values(|x: Parameter| parameter_text(x));
                let mut i: usize = 0;
                while i < params.len()
                    invariant
                        i <= params@.len(),
                        texts == pairs_view(params@).map_values(|x: Parameter| parameter_text(x)),
                        texts.len() == params@.len(),
                        i == 0 ==> s@ == Seq::<char>::empty(),
                        i > 0 ==> s@ == seq!['?'] + join(texts.take(i as int), seq!['&']),
                    decreases params.len() - i,
                {
                    if i == 0 {
                        s.push('?');
                    } else {
                        s.push('&');
                    }
                    s.append(params[i].0.as_str());
                    s.push('=');
                    s.append(params[i].1.as_str());
                    proof {
                        let next = texts.take(i as int + 1);
                        assert(next.drop_last() =~= texts.take(i as int));
                    }
                    i += 1;
                }
                assert(texts.take(params@.len() as int) =~= texts);
                s
            },
            None => s,
        }
    }

    /// Puts the header that `line` holds.
    fn put_header_line(headers: &mut HttpHeader, line: &[char])
        ensures
            final(headers)@ == put(
                old(headers)@,
                header_of_line(line@).0,
                header_of_line(line@).1,
            ),
    {
        let n = line.len();
        match find_char(line, ':', 0) {
            Some(i) => {
                let name = string_of_range(line, 0, i);
                let value = string_of_range(line, i + 1, n);
                headers.insert(crate::bridge::lowercase(name.as_str()), value);
            },
            None => {
                proof {
                    reveal_strlit("");
                }
                assert(""@ =~= Seq::<char>::empty());
                headers.insert(crate::bridge::lowercase(""), String::new());
            },
        }
    }

    /// The headers that the lines of `text` hold.
    fn headers_from_text(text: &[char]) -> (headers: HttpHeader)
        ensures
            headers@ == put_all(
                Seq::empty(),
                lines(text@).map_values(|l: Seq<char>| header_of_line(l)),
            ),
    {
        let mut headers = HttpHeader::new();
        let n = text.len();
        let ghost pieces = split(text@, '\n');
        let ghost all = lines(text@).map_values(|l: Seq<char>| header_of_line(l));
        let mut start: usize = 0;
        let mut taken: usize = 0;
        let mut done = false;
        proof {
            crate::text::lemma_split_from_nonempty(text@, '\n', 0);
        }
        while !done
            invariant
                n == text@.len(),
                start <= n,
                taken <= start,
                pieces == split(text@, '\n'),
                all == lines(text@).map_values(|l: Seq<char>| header_of_line(l)),
                !done ==> taken < pieces.len(),
                !done ==> pieces.skip(taken as int) == split_from(text@, '\n', start as int),
                !done ==> taken <= all.len(),
                !done ==> headers@ == put_all(Seq::empty(), all.take(taken as int)),
                done ==> headers@ == put_all(Seq::empty(), all),
            decreases
                (if done {
                    0int
                } else {
                    n + 2 - start
                }),
        {
            proof {
                crate::text::lemma_split_from_step(text@, '\n', start as int);
            }
            match find_char(text, '\n', start) {
                Some(i) => {
                    let end: usize = if i > start && text[i - 1] == '\r' {
                        i - 1
                    } else {
                        i
                    };
                    let line = slice_subrange(text, start, end);
                    proof {
                        let piece = text@.subrange(start as int, i as int);
                        assert(pieces[taken as int] == pieces.skip(taken as int)[0]);
                        assert(line@ =~= strip_cr(piece));
                        assert(pieces.skip(taken as int + 1) =~= pieces.skip(taken as int).skip(
                            1,
                        ));
                        crate::text::lemma_split_from_nonempty(text@, '\n', i as int + 1);
                        let next = all.take(taken as int + 1);
                        assert(next.drop_last() =~= all.take(taken as int));
                    }
                    HttpRequest::put_header_line(&mut headers, line);
                    start = i + 1;
                    taken += 1;
                },
                None => {
                    proof {
                        assert(pieces.skip(taken as int).len() == 1);
                        assert(pieces.last() == pieces.skip(taken as int)[0]);
                    }
                    if start < n {
                        let line = slice_subrange(text, start, n);
                        HttpRequest::put_header_line(&mut headers, line);
                    } else {
                        proof {
                            assert(all.take(taken as int) =~= all);
                        }
                    }
                    done = true;
                },
            }
        }
        headers
    }

    /// The headers of a header block.
    fn headers_from_block(block: &[u8]) -> (headers: HttpHeader)
        ensures
            headers@ == headers_of(block@),
    {
        match crate::bridge::utf8_text(block) {
            Some(text) => {
                let chars = chars_of(text.as_str());
                HttpRequest::headers_from_text(chars.as_slice())
            },
            None => {
                let chars: Vec<char> = Vec::new();
                HttpRequest::headers_from_text(chars.as_slice())
            },
        }
    }

    /// The classified path of a request target.
    fn path_from_target(path: &[u8]) -> (r: HttpPath)
        ensures
            r@ == HttpPath::parse(trim(text_or_empty(path@))),
    {
        let chars = match crate::bridge::utf8_text(path) {
            Some(text) => chars_of(text.as_str()),
            None => Vec::new(),
        };
        let (start, end) = crate::text::trim_bounds(chars.as_slice());
        HttpPath::from_string(string_of_range(chars.as_slice(), start, end))
    }

    /// Reads a request off the bytes that hold its head. The body is left
    /// empty: `parse_body` takes it in. A request without a query has an
    /// empty list of parameters.
    pub fn from_request_bytes(buffer: &[u8]) -> (r: Self)
        ensures
            r@ == parse_head(buffer@),
            target_query(head_parts(head_of(buffer@)).1).len() == 0 ==> r@.parameters == Some(
                Seq::<Parameter>::empty(),
            ),
    {
        let delim: Vec<u8> = vec![13u8, 10u8, 13u8, 10u8];
        let head_len: usize = match find_bytes(buffer, delim.as_slice()) {
            Some(d) => {
                proof {
                    crate::text::lemma_first_match_from(buffer@, delimiter(), 0);
                }
                d
            },
            None => buffer.len(),
        };
        let head = slice_subrange(buffer, 0, head_len);
        assert(head@ =~= head_of(buffer@));
        let n = head.len();
        let empty = slice_subrange(head, 0, 0);
        assert(empty@ =~= Seq::<u8>::empty());
        let (token, target, rest) = match find_byte(head, 32u8, 0) {
            None => (head, empty, empty),
            Some(i) => {
                proof {
                    crate::text::lemma_first_index_from(head@, 32u8, 0);
                }
                match find_byte(head, 32u8, i + 1) {
                    None => (slice_subrange(head, 0, i), slice_subrange(head, i + 1, n), empty),
                    Some(j) => {
                        proof {
                            crate::text::lemma_first_index_from(head@, 32u8, i as int + 1);
                        }
                        (
                            slice_subrange(head, 0, i),
                            slice_subrange(head, i + 1, j),
                            slice_subrange(head, j + 1, n),
                        )
                    },
                }
            },
        };
        let method = HttpMethod::from_bytes(token);
        let block = if rest.len() >= 10 {
            slice_subrange(rest, 10, rest.len())
        } else {
            empty
        };
        let headers = HttpRequest::headers_from_block(block);
        let m = target.len();
        let (path, query) = match find_byte(target, 63u8, 0) {
            Some(q) => {
                proof {
                    crate::text::lemma_first_index_from(target@, 63u8, 0);
                }
                (slice_subrange(target, 0, q), slice_subrange(target, q + 1, m))
            },
            None => (target, empty),
        };
        let parameters = crate::bridge::parse_query(query);
        assert(pairs_view(parameters@) =~= parameters_of(query@));
        let path = HttpRequest::path_from_target(path);
        HttpRequest { method, path, parameters: Some(parameters), headers, body: None }
    }

    /// Takes a body into the request, given its text and what the JSON
    /// reader made of that text. On failure the request stays as it was.
    pub fn take_body(&mut self, text: &str, parsed: Result<JsonValue, String>) -> (r: Result<
        (),
        String,
    >)
        ensures
            final(self)@.method == old(self)@.method,
            final(self)@.path == old(self)@.path,
            final(self)@.parameters == old(self)@.parameters,
            final(self)@.headers == old(self)@.headers,
            match r {
                Ok(_) => body_result(
                    text@,
                    match parsed {
                        Ok(v) => Ok(v@),
                        Err(e) => Err(e@),
                    },
                ) matches Ok(v) && final(self)@.body == Some(v),
                Err(message) => body_result(
                    text@,
                    match parsed {
                        Ok(v) => Ok(v@),
                        Err(e) => Err(e@),
                    },
                ) == Err::<JsonView, Seq<char>>(message@) && final(self)@.body == old(self)@.body,
            },
    {
        if text.unicode_len() == 0 {
            return Err(String::from_str("Failed to parse request body to utf8 string"));
        }
        match parsed {
            Ok(value) => {
                self.body = Some(value);
                Ok(())
            },
            Err(detail) => {
                let mut message = String::from_str("Failed to parse request body to json value: ");
                message.append(detail.as_str());
                Err(message)
            },
        }
    }

    /// The text of the body that `buffer` holds: the bytes decoded, without
    /// the padding after the text.
    pub fn body_text(buffer: &[u8]) -> (text: String)
        ensures
            text@ == body_text(buffer@),
    {
        let decoded = crate::bridge::utf8_text_lossy(buffer);
        let chars = chars_of(decoded.as_str());
        let unpadded = crate::text::trim_end_nul_len(chars.as_slice());
        let delim: Vec<char> = vec!['\r', '\n', '\r', '\n'];
        let end = crate::text::trim_end_pattern_len(chars.as_slice(), unpadded, delim.as_slice());
        let text = string_of_range(chars.as_slice(), 0, end);
        text
    }

    /// Takes the body that `buffer` holds into the request. The bytes are
    /// decoded, the padding after the text is dropped, and the text is read as
    /// JSON. On failure the request stays as it was, and the error says why.
    pub fn parse_body(&mut self, buffer: &[u8]) -> (r: Result<(), String>)
        ensures
            final(self)@.method == old(self)@.method,
            final(self)@.path == old(self)@.path,
            final(self)@.parameters == old(self)@.parameters,
            final(self)@.headers == old(self)@.headers,
            match r {
                Ok(_) => body_outcome(buffer@) matches Ok(v) && final(self)@.body == Some(v),
                Err(message) => body_outcome(buffer@) == Err::<JsonView, Seq<char>>(message@)
                    && final(self)@.body == old(self)@.body,
            },
    {
        let text = HttpRequest::body_text(buffer);
        let parsed = crate::bridge::json_parse(text.as_str());
        self.take_body(text.as_str(), parsed)
    }

    /// The request written out.
    pub fn to_string(&self) -> (s: String)
        ensures
            s@ == request_text(self@),
    {
        let mut s = String::from_str(self.method.as_str());
        s.push(' ');
        s.append(self.path.to_string().as_str());
        s.append(self.parameters_to_string().as_str());
        s.append(" HTTP/1.1\r\n");
        s.append(self.headers.to_string().as_str());
        s.append("\r\n\r\n");
        s.append(crate::bridge::json_debug(&self.body).as_str());
        s
    }

    /// The request written out, as bytes.
    pub fn to_bytes(&self) -> (b: Vec<u8>)
        ensures
            b@ == encode_utf8(request_text(self@)),
    {
        let s = self.to_string();
        vstd::slice::slice_to_vec(s.as_str().as_bytes())
    }
}

} // verus!
