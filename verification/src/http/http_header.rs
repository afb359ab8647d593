//! Status lines, header names, and the collection of header lines that a
//! request carries in and a response carries out.

use crate::text::{chars_of, find_char, find_chars, first_index, first_match, i64_to_string};
use crate::text::{join, lemma_first_index_from, signed_decimal, str_eq, string_of_range};
use vstd::prelude::*;

verus! {

/// The statuses the server answers with.
#[derive(Clone, Copy, Debug, PartialEq, Eq, Structural)]
pub enum HttpStatus {
    OK,
    Created,
    NoContent,
    BadRequest,
    Unauthorized,
    Forbidden,
    NotFound,
}

impl HttpStatus {
    /// The numeric status code.
    pub open spec fn code(self) -> nat {
        match self {
            HttpStatus::OK => 200,
            HttpStatus::Created => 201,
            HttpStatus::NoContent => 204,
            HttpStatus::BadRequest => 400,
            HttpStatus::Unauthorized => 401,
            HttpStatus::Forbidden => 403,
            HttpStatus::NotFound => 404,
        }
    }

    /// The reason phrase that goes with the code.
    pub open spec fn reason(self) -> Seq<char> {
        match self {
            HttpStatus::OK => "OK"@,
            HttpStatus::Created => "Created"@,
            HttpStatus::NoContent => "No Content"@,
            HttpStatus::BadRequest => "Bad Request"@,
            HttpStatus::Unauthorized => "Unauthorized"@,
            HttpStatus::Forbidden => "Forbidden"@,
            HttpStatus::NotFound => "Not Found"@,
        }
    }

    /// The status as it stands in a status line: code, space, reason.
    pub open spec fn line(self) -> Seq<char> {
        match self {
            HttpStatus::OK => "200 OK"@,
            HttpStatus::Created => "201 Created"@,
            HttpStatus::NoContent => "204 No Content"@,
            HttpStatus::BadRequest => "400 Bad Request"@,
            HttpStatus::Unauthorized => "401 Unauthorized"@,
            HttpStatus::Forbidden => "403 Forbidden"@,
            HttpStatus::NotFound => "404 Not Found"@,
        }
    }

    /// Every status line is the code in decimal, one space, and the reason.
    pub proof fn lemma_line(self)
        ensures
            self.line() == crate::text::decimal(self.code()) + seq![' '] + self.reason(),
    {
        reveal_strlit("OK");
        reveal_strlit("Created");
        reveal_strlit("No Content");
        reveal_strlit("Bad Request");
        reveal_strlit("Unauthorized");
        reveal_strlit("Forbidden");
        reveal_strlit("Not Found");
        reveal_strlit("200 OK");
        reveal_strlit("201 Created");
        reveal_strlit("204 No Content");
        reveal_strlit("400 Bad Request");
        reveal_strlit("401 Unauthorized");
        reveal_strlit("403 Forbidden");
        reveal_strlit("404 Not Found");
        reveal_with_fuel(crate::text::decimal, 3);
    }

    /// The numeric status code.
    pub fn status_code(&self) -> (c: u16)
        ensures
            c == self.code(),
    {
        match self {
            HttpStatus::OK => 200,
            HttpStatus::Created => 201,
            HttpStatus::NoContent => 204,
            HttpStatus::BadRequest => 400,
            HttpStatus::Unauthorized => 401,
            HttpStatus::Forbidden => 403,
            HttpStatus::NotFound => 404,
        }
    }

    /// The status as it stands in a status line.
    pub fn as_str(&self) -> (s: &'static str)
        ensures
            s@ == self.line(),
    {
        match self {
            HttpStatus::OK => "200 OK",
            HttpStatus::Created => "201 Created",
            HttpStatus::NoContent => "204 No Content",
            HttpStatus::BadRequest => "400 Bad Request",
            HttpStatus::Unauthorized => "401 Unauthorized",
            HttpStatus::Forbidden => "403 Forbidden",
            HttpStatus::NotFound => "404 Not Found",
        }
    }
}

/// The header names the server reads or writes.
#[derive(Clone, Copy, Debug, PartialEq, Eq, Structural)]
pub enum HttpHeaderType {
    SessionID,
    Cookie,
    SetCookie,
    DateTime,
    ContentType,
    ContentLength,
    AcAllowOrigin,
    AcAllowMethods,
    AcAllowHeaders,
    AcAllowCredentials,
    AcMaxAge,
    AcExposeHeaders,
    Host,
    Origin,
    AcRequestMethod,
    AcRequestHeaders,
}

impl HttpHeaderType {
    /// The header name, in lower case.
    pub open spec fn name(self) -> Seq<char> {
        match self {
            HttpHeaderType::SessionID => "session_id"@,
            HttpHeaderType::Cookie => "cookie"@,
            HttpHeaderType::SetCookie => "set-cookie"@,
            HttpHeaderType::DateTime => "datetime"@,
            HttpHeaderType::ContentType => "content-type"@,
            HttpHeaderType::ContentLength => "content-length"@,
            HttpHeaderType::AcAllowOrigin => "access-control-allow-origin"@,
            HttpHeaderType::AcAllowMethods => "access-control-allow-methods"@,
            HttpHeaderType::AcAllowHeaders => "access-control-allow-headers"@,
            HttpHeaderType::AcAllowCredentials => "access-control-allow-credentials"@,
            HttpHeaderType::AcMaxAge => "access-control-max-age"@,
            HttpHeaderType::AcExposeHeaders => "access-control-expose-headers"@,
            HttpHeaderType::Host => "host"@,
            HttpHeaderType::Origin => "origin"@,
            HttpHeaderType::AcRequestMethod => "access-control-request-method"@,
            HttpHeaderType::AcRequestHeaders => "access-control-request-headers"@,
        }
    }

    /// The length of a name and the characters that tell names of one length apart.
    pub open spec fn mark(name: Seq<char>) -> (nat, char, char, char, char) {
        (name.len(), name[0], name[2], name[15], name[21])
    }

    /// No two header names are the same text.
    pub proof fn lemma_names_differ()
        ensures
            forall|a: HttpHeaderType, b: HttpHeaderType|
                a != b ==> #[trigger] a.name() != #[trigger] b.name(),
    {
        reveal_strlit("session_id");
        reveal_strlit("cookie");
        reveal_strlit("set-cookie");
        reveal_strlit("datetime");
        reveal_strlit("content-type");
        reveal_strlit("content-length");
        reveal_strlit("access-control-allow-origin");
        reveal_strlit("access-control-allow-methods");
        reveal_strlit("access-control-allow-headers");
        reveal_strlit("access-control-allow-credentials");
        reveal_strlit("access-control-max-age");
        reveal_strlit("access-control-expose-headers");
        reveal_strlit("host");
        reveal_strlit("origin");
        reveal_strlit("access-control-request-method");
        reveal_strlit("access-control-request-headers");
        assert forall|a: HttpHeaderType, b: HttpHeaderType| a != b implies #[trigger] a.name()
            != #[trigger] b.name() by {
            assert(HttpHeaderType::mark(a.name()) != HttpHeaderType::mark(b.name()));
        }
    }

    /// The header name, in lower case.
    pub fn as_str(&self) -> (s: &'static str)
        ensures
            s@ == self.name(),
    {
        match self {
            HttpHeaderType::SessionID => "session_id",
            HttpHeaderType::Cookie => "cookie",
            HttpHeaderType::SetCookie => "set-cookie",
            HttpHeaderType::DateTime => "datetime",
            HttpHeaderType::ContentType => "content-type",
            HttpHeaderType::ContentLength => "content-length",
            HttpHeaderType::AcAllowOrigin => "access-control-allow-origin",
            HttpHeaderType::AcAllowMethods => "access-control-allow-methods",
            HttpHeaderType::AcAllowHeaders => "access-control-allow-headers",
            HttpHeaderType::AcAllowCredentials => "access-control-allow-credentials",
            HttpHeaderType::AcMaxAge => "access-control-max-age",
            HttpHeaderType::AcExposeHeaders => "access-control-expose-headers",
            HttpHeaderType::Host => "host",
            HttpHeaderType::Origin => "origin",
            HttpHeaderType::AcRequestMethod => "access-control-request-method",
            HttpHeaderType::AcRequestHeaders => "access-control-request-headers",
        }
    }
}

/// A header line as a pair of name and value.
pub type Line = (Seq<char>, Seq<char>);

/// The names of a sequence of header lines.
pub open spec fn names(lines: Seq<Line>) -> Seq<Seq<char>> {
    lines.map_values(|l: Line| l.0)
}

/// The value that stands under `name`, if any line has that name.
pub open spec fn lookup(lines: Seq<Line>, name: Seq<char>) -> Option<Seq<char>> {
    match first_index(names(lines), name) {
        Some(i) => Some(lines[i].1),
        None => None,
    }
}

/// The lines after `value` was put under `name`: the line of that name is
/// overwritten where it stands; a new name goes to the end.
pub open spec fn put(lines: Seq<Line>, name: Seq<char>, value: Seq<char>) -> Seq<Line> {
    match first_index(names(lines), name) {
        Some(i) => lines.update(i, (name, value)),
        None => lines.push((name, value)),
    }
}

/// The lines after every pair of `more` was put, first to last.
pub open spec fn put_all(lines: Seq<Line>, more: Seq<Line>) -> Seq<Line>
    decreases more.len(),
{
    if more.len() == 0 {
        lines
    } else {
        put(put_all(lines, more.drop_last()), more.last().0, more.last().1)
    }
}

/// A header line as text: name, colon, space, value.
pub open spec fn line_text(line: Line) -> Seq<char> {
    line.0 + seq![':', ' '] + line.1
}

/// The header block as text: the lines, with CR LF between each two.
pub open spec fn block_text(lines: Seq<Line>) -> Seq<char> {
    join(lines.map_values(|l: Line| line_text(l)), seq!['\r', '\n'])
}

/// The value of the cookie `name` in a `Cookie` header value: what follows the
/// first occurrence of `name` and one separator character, up to the next `;`
/// or the end.
pub open spec fn cookie_value(cookie: Seq<char>, name: Seq<char>) -> Option<Seq<char>> {
    match first_match(cookie, name) {
        Some(i) => {
            let after = cookie.skip(i + name.len());
            let rest = if after.len() > 0 {
                after.skip(1)
            } else {
                after
            };
            match first_index(rest, ';') {
                Some(j) => Some(rest.take(j)),
                None => Some(rest),
            }
        },
        None => None,
    }
}

/// The views of a list of pairs of string slices.
pub open spec fn lines_of(pairs: Seq<(&str, &str)>) -> Seq<Line> {
    pairs.map_values(|p: (&str, &str)| (p.0@, p.1@))
}

/// The `Set-Cookie` value that hands the session `id` to the client.
pub open spec fn session_cookie(id: Seq<char>) -> Seq<char> {
    HttpHeaderType::SessionID.name() + seq!['='] + id
        + "; HttpOnly; SameSite=Strict; Max-Age=3600; Path=/"@
}

/// The two lines that every response carries, for the time `timestamp` in
/// seconds since the Unix epoch.
pub open spec fn default_lines(timestamp: i64) -> Seq<Line> {
    seq![
        (HttpHeaderType::AcAllowCredentials.name(), "true"@),
        (HttpHeaderType::DateTime.name(), signed_decimal(timestamp as int)),
    ]
}

/// The default lines and the content type of a JSON body.
pub open spec fn json_lines(timestamp: i64) -> Seq<Line> {
    default_lines(timestamp).push((HttpHeaderType::ContentType.name(), "application/json"@))
}

/// The default lines and the content type of an HTML body.
pub open spec fn html_lines(timestamp: i64) -> Seq<Line> {
    default_lines(timestamp).push((HttpHeaderType::ContentType.name(), "application/html"@))
}

/// The value of the header that lists the request headers a cross-origin
/// client may send: the content type and the session header.
pub open spec fn allowed_headers() -> Seq<char> {
    HttpHeaderType::ContentType.name() + seq![',', ' '] + HttpHeaderType::SessionID.name()
}

/// The value of the header that lists the origins that may talk to the
/// server across origins.
pub open spec fn allowed_origins() -> Seq<char> {
    "http://localhost:8080"@ + seq![',', ' '] + "http://localhost.:8080"@ + seq![',', ' ']
        + "http://127.0.0.1:8080"@
}

/// The default lines and what answers a cross-origin preflight: the allowed
/// methods, the allowed headers, how long the answer may be cached, and the
/// allowed origins.
pub open spec fn options_lines(timestamp: i64) -> Seq<Line> {
    default_lines(timestamp).push(
        (HttpHeaderType::AcAllowMethods.name(), "GET, POST, PATCH, DELETE, OPTIONS"@),
    ).push((HttpHeaderType::AcAllowHeaders.name(), allowed_headers())).push(
        (HttpHeaderType::AcMaxAge.name(), "86400"@),
    ).push((HttpHeaderType::AcAllowOrigin.name(), allowed_origins()))
}

/// The value of the cookie `name` that a collection of header lines carries
/// in its `cookie` header.
pub open spec fn cookie_of(lines: Seq<Line>, name: Seq<char>) -> Option<Seq<char>> {
    match lookup(lines, HttpHeaderType::Cookie.name()) {
        Some(cookie) => cookie_value(cookie, name),
        None => None,
    }
}

/// A value read after a value was put under the same name is that value.
pub proof fn lemma_lookup_put_same(lines: Seq<Line>, name: Seq<char>, value: Seq<char>)
    ensures
        lookup(put(lines, name, value), name) == Some(value),
{
    let ns = names(lines);
    lemma_first_index_from(ns, name, 0);
    let after = put(lines, name, value);
    match first_index(ns, name) {
        Some(i) => {
            assert(names(after) =~= ns);
        },
        None => {
            assert(names(after) =~= ns.push(name));
            crate::text::lemma_first_index_from_is(names(after), name, 0, ns.len() as int);
        },
    }
}

/// Putting a value under one name changes nothing under another name.
pub proof fn lemma_lookup_put_other(
    lines: Seq<Line>,
    name: Seq<char>,
    value: Seq<char>,
    other: Seq<char>,
)
    requires
        other != name,
    ensures
        lookup(put(lines, name, value), other) == lookup(lines, other),
{
    let ns = names(lines);
    lemma_first_index_from(ns, name, 0);
    lemma_first_index_from(ns, other, 0);
    let after = put(lines, name, value);
    let ms = names(after);
    match first_index(ns, name) {
        Some(i) => {
            assert(ms =~= ns);
        },
        None => {
            assert(ms =~= ns.push(name));
            match first_index(ns, other) {
                Some(k) => {
                    crate::text::lemma_first_index_from_is(ms, other, 0, k);
                },
                None => {
                    crate::text::lemma_first_index_from_none(ms, other, 0);
                },
            }
        },
    }
}

/// Putting two lists one after the other is putting their concatenation.
pub proof fn lemma_put_all_concat(lines: Seq<Line>, first: Seq<Line>, second: Seq<Line>)
    ensures
        put_all(put_all(lines, first), second) == put_all(lines, first + second),
    decreases second.len(),
{
    if second.len() > 0 {
        lemma_put_all_concat(lines, first, second.drop_last());
        assert((first + second).drop_last() =~= first + second.drop_last());
    }
}

/// Lines with distinct names, put into an empty collection, stand there as
/// they were given.
pub proof fn lemma_put_all_fresh(lines: Seq<Line>)
    requires
        names(lines).no_duplicates(),
    ensures
        put_all(Seq::empty(), lines) == lines,
    decreases lines.len(),
{
    if lines.len() > 0 {
        let front = lines.drop_last();
        assert(names(front) =~= names(lines).drop_last());
        lemma_put_all_fresh(front);
        assert forall|j: int| 0 <= j < names(front).len() implies names(front)[j]
            != lines.last().0 by {
            assert(names(lines)[lines.len() - 1] == lines.last().0);
        }
        crate::text::lemma_first_index_from_none(names(front), lines.last().0, 0);
    }
}

/// Putting a value keeps the names distinct.
pub proof fn lemma_put_distinct(lines: Seq<Line>, name: Seq<char>, value: Seq<char>)
    requires
        names(lines).no_duplicates(),
    ensures
        names(put(lines, name, value)).no_duplicates(),
{
    let ns = names(lines);
    lemma_first_index_from(ns, name, 0);
    let after = put(lines, name, value);
    match first_index(ns, name) {
        Some(i) => {
            assert(names(after) =~= ns);
        },
        None => {
            assert(names(after) =~= ns.push(name));
        },
    }
}

/// A collection of header lines, at most one for each name.
///
/// The view is the sequence of lines, in the order in which their names were
/// first inserted.
pub struct HttpHeader {
    entries: Vec<(String, String)>,
}

impl View for HttpHeader {
    type V = Seq<Line>;

    closed spec fn view(&self) -> Seq<Line> {
        self.entries@.map_values(|e: (String, String)| (e.0@, e.1@))
    }
}

impl HttpHeader {
    #[verifier::type_invariant]
    spec fn names_distinct(&self) -> bool {
        names(self@).no_duplicates()
    }

    /// An empty collection.
    pub fn new() -> (h: Self)
        ensures
            h@ == Seq::<Line>::empty(),
    {
        let h = HttpHeader { entries: Vec::new() };
        h
    }

    /// The collection itself: the last step of a chain of calls.
    pub fn build(self) -> (h: Self)
        ensures
            h@ == self@,
    {
        self
    }

    /// No two lines of a collection have the same name.
    pub fn names_are_distinct(&self)
        ensures
            names(self@).no_duplicates(),
    {
        proof {
            use_type_invariant(self);
        }
    }

    fn position(&self, key: &str) -> (r: Option<usize>)
        ensures
            match r {
                Some(i) => first_index(names(self@), key@) == Some(i as int) && i
                    < self.entries@.len(),
                None => first_index(names(self@), key@) is None,
            },
    {
        let ghost ns = names(self@);
        let mut i: usize = 0;
        while i < self.entries.len()
            invariant
                ns == names(self@),
                ns.len() == self.entries@.len(),
                forall|j: int| 0 <= j < i && j < ns.len() ==> ns[j] != key@,
            decreases self.entries.len() - i,
        {
            if str_eq(self.entries[i].0.as_str(), key) {
                proof {
                    crate::text::lemma_first_index_from_is(ns, key@, 0, i as int);
                }
                return Some(i);
            }
            i += 1;
        }
        proof {
            crate::text::lemma_first_index_from_none(ns, key@, 0);
        }
        None
    }

    /// Puts `value` under `key`, and returns the value that stood there before.
    pub fn insert(&mut self, key: String, value: String) -> (previous: Option<String>)
        ensures
            final(self)@ == put(old(self)@, key@, value@),
            match previous {
                Some(p) => lookup(old(self)@, key@) == Some(p@),
                None => lookup(old(self)@, key@) is None,
            },
    {
        proof {
            use_type_invariant(&*self);
            lemma_put_distinct(self@, key@, value@);
        }
        let found = self.position(key.as_str());
        let mut entries: Vec<(String, String)> = Vec::new();
        core::mem::swap(&mut entries, &mut self.entries);
        let previous = match found {
            Some(i) => {
                let previous = entries[i].1.clone();
                entries.set(i, (key, value));
                Some(previous)
            },
            None => {
                entries.push((key, value));
                None
            },
        };
        assert(entries@.map_values(|e: (String, String)| (e.0@, e.1@)) =~= put(
            old(self)@,
            key@,
            value@,
        ));
        self.entries = entries;
        previous
    }

    /// The value under `key`, if there is one.
    pub fn get(&self, key: &str) -> (r: Option<&String>)
        ensures
            match r {
                Some(v) => lookup(self@, key@) == Some(v@),
                None => lookup(self@, key@) is None,
            },
    {
        match self.position(key) {
            Some(i) => Some(&self.entries[i].1),
            None => None,
        }
    }

    /// The value of the cookie `key` in the `cookie` header.
    pub fn get_cookie(&self, key: &str) -> (r: Option<String>)
        ensures
            match r {
                Some(v) => cookie_of(self@, key@) == Some(v@),
                None => cookie_of(self@, key@) is None,
            },
    {
        match self.get(HttpHeaderType::Cookie.as_str()) {
            Some(cookie) => {
                let chars = chars_of(cookie.as_str());
                let name = chars_of(key);
                match find_chars(chars.as_slice(), name.as_slice()) {
                    Some(i) => {
                        proof {
                            crate::text::lemma_first_match_from(chars@, name@, 0);
                        }
                        let n: usize = chars.len();
                        let after: usize = i + name.len();
                        let start: usize = if after < n {
                            after + 1
                        } else {
                            after
                        };
                        let ghost rest = chars@.skip(start as int);
                        assert(rest == if chars@.skip(after as int).len() > 0 {
                            chars@.skip(after as int).skip(1)
                        } else {
                            chars@.skip(after as int)
                        });
                        let end: usize = match find_char(chars.as_slice(), ';', start) {
                            Some(j) => j,
                            None => n,
                        };
                        proof {
                            lemma_first_index_from(chars@, ';', start as int);
                            crate::text::lemma_first_index_skip(chars@, ';', start as int);
                        }
                        let value = string_of_range(chars.as_slice(), start, end);
                        Some(value)
                    },
                    None => None,
                }
            },
            None => None,
        }
    }

    /// The methods a cross-origin client may use.
    pub const AC_ALLOWED_METHODS: &'static str = "GET, POST, PATCH, DELETE, OPTIONS";

    /// For how many seconds a preflight answer may be cached: 24 hours.
    pub const AC_MAX_AGE: &'static str = "86400";

    /// The origins that may talk to the server across origins.
    pub const AC_ORIGINS: [&'static str; 3] = [
        "http://localhost:8080",
        "http://localhost.:8080",
        "http://127.0.0.1:8080",
    ];

    /// Puts every pair of `other`, first to last.
    pub fn with(&mut self, other: Vec<(&str, &str)>) -> (r: &mut Self)
        ensures
            r@ == put_all(old(self)@, lines_of(other@)),
            *final(self) == *final(r),
    {
        let ghost more = lines_of(other@);
        let mut i: usize = 0;
        while i < other.len()
            invariant
                i <= other@.len(),
                more == lines_of(other@),
                self@ == put_all(old(self)@, more.take(i as int)),
            decreases other.len() - i,
        {
            let pair = other[i];
            self.insert(String::from_str(pair.0), String::from_str(pair.1));
            proof {
                let next = more.take(i as int + 1);
                assert(next.drop_last() =~= more.take(i as int));
            }
            i += 1;
        }
        assert(more.take(other@.len() as int) =~= more);
        self
    }

    /// Adds the cookie that hands the session to the client, and exposes the
    /// session header to cross-origin clients.
    pub fn set_session(self, session_id: String) -> (h: Self)
        ensures
            h@ == put(
                put(self@, HttpHeaderType::SetCookie.name(), session_cookie(session_id@)),
                HttpHeaderType::AcExposeHeaders.name(),
                HttpHeaderType::SessionID.name(),
            ),
    {
        let mut header = self;
        let mut cookie = String::from_str(HttpHeaderType::SessionID.as_str());
        cookie.push('=');
        cookie.append(session_id.as_str());
        cookie.append("; HttpOnly; SameSite=Strict; Max-Age=3600; Path=/");
        assert(cookie@ =~= session_cookie(session_id@));
        header.insert(String::from_str(HttpHeaderType::SetCookie.as_str()), cookie);
        header.insert(
            String::from_str(HttpHeaderType::AcExposeHeaders.as_str()),
            String::from_str(HttpHeaderType::SessionID.as_str()),
        );
        header
    }

    /// Puts the two lines that every response carries, for the time `timestamp`.
    pub fn default_at(&mut self, timestamp: i64) -> (r: &mut Self)
        ensures
            r@ == put_all(old(self)@, default_lines(timestamp)),
            *final(self) == *final(r),
    {
        let stamp = i64_to_string(timestamp);
        let mut lines: Vec<(&str, &str)> = Vec::new();
        lines.push((HttpHeaderType::AcAllowCredentials.as_str(), "true"));
        lines.push((HttpHeaderType::DateTime.as_str(), stamp.as_str()));
        assert(lines_of(lines@) =~= default_lines(timestamp));
        self.with(lines)
    }

    /// Puts the two lines that every response carries, for the present time.
    pub fn default(&mut self) -> (r: &mut Self)
        ensures
            exists|timestamp: i64|
                r@ == put_all(old(self)@, #[trigger] default_lines(timestamp)),
            *final(self) == *final(r),
    {
        self.default_at(crate::bridge::unix_time_now())
    }

    /// The header lines of a JSON response made at the time `timestamp`.
    pub fn default_json_at(timestamp: i64) -> (h: Self)
        ensures
            h@ == json_lines(timestamp),
    {
        let mut header = HttpHeader::new();
        let mut lines: Vec<(&str, &str)> = Vec::new();
        lines.push((HttpHeaderType::ContentType.as_str(), "application/json"));
        header.default_at(timestamp).with(lines);
        proof {
            HttpHeaderType::lemma_names_differ();
            lemma_put_all_concat(Seq::empty(), default_lines(timestamp), lines_of(lines@));
            assert(default_lines(timestamp) + lines_of(lines@) =~= json_lines(timestamp));
            lemma_put_all_fresh(json_lines(timestamp));
        }
        header.build()
    }

    /// The header lines of an HTML response made at the time `timestamp`.
    pub fn default_html_at(timestamp: i64) -> (h: Self)
        ensures
            h@ == html_lines(timestamp),
    {
        let mut header = HttpHeader::new();
        let mut lines: Vec<(&str, &str)> = Vec::new();
        lines.push((HttpHeaderType::ContentType.as_str(), "application/html"));
        header.default_at(timestamp).with(lines);
        proof {
            HttpHeaderType::lemma_names_differ();
            lemma_put_all_concat(Seq::empty(), default_lines(timestamp), lines_of(lines@));
            assert(default_lines(timestamp) + lines_of(lines@) =~= html_lines(timestamp));
            lemma_put_all_fresh(html_lines(timestamp));
        }
        header.build()
    }

    /// The header lines that answer a cross-origin preflight at the time `timestamp`.
    pub fn default_options_at(timestamp: i64) -> (h: Self)
        ensures
            h@ == options_lines(timestamp),
    {
        let mut header = HttpHeader::new();
        let mut allowed = String::from_str(HttpHeaderType::ContentType.as_str());
        allowed.append(", ");
        allowed.append(HttpHeaderType::SessionID.as_str());
        proof {
            reveal_strlit(", ");
            assert(allowed@ =~= allowed_headers());
        }
        let mut origins = String::from_str("http://localhost:8080");
        origins.push(',');
        origins.push(' ');
        origins.append("http://localhost.:8080");
        origins.push(',');
        origins.push(' ');
        origins.append("http://127.0.0.1:8080");
        assert(origins@ =~= allowed_origins());
        let mut lines: Vec<(&str, &str)> = Vec::new();
        lines.push((HttpHeaderType::AcAllowMethods.as_str(), HttpHeader::AC_ALLOWED_METHODS));
        lines.push((HttpHeaderType::AcAllowHeaders.as_str(), allowed.as_str()));
        lines.push((HttpHeaderType::AcMaxAge.as_str(), HttpHeader::AC_MAX_AGE));
        lines.push((HttpHeaderType::AcAllowOrigin.as_str(), origins.as_str()));
        header.default_at(timestamp).with(lines);
        proof {
            HttpHeaderType::lemma_names_differ();
            lemma_put_all_concat(Seq::empty(), default_lines(timestamp), lines_of(lines@));
            assert(default_lines(timestamp) + lines_of(lines@) =~= options_lines(timestamp));
            lemma_put_all_fresh(options_lines(timestamp));
        }
        header.build()
    }

    /// The header lines of a JSON response made now.
    pub fn default_json() -> (h: Self)
        ensures
            exists|timestamp: i64| h@ == #[trigger] json_lines(timestamp),
    {
        HttpHeader::default_json_at(crate::bridge::unix_time_now())
    }

    /// The header lines of an HTML response made now.
    pub fn default_html() -> (h: Self)
        ensures
            exists|timestamp: i64| h@ == #[trigger] html_lines(timestamp),
    {
        HttpHeader::default_html_at(crate::bridge::unix_time_now())
    }

    /// The header lines that answer a cross-origin preflight now.
    pub fn default_options() -> (h: Self)
        ensures
            exists|timestamp: i64| h@ == #[trigger] options_lines(timestamp),
    {
        HttpHeader::default_options_at(crate::bridge::unix_time_now())
    }

    /// The header block as text: a line `name: value` for each header, with
    /// CR LF between each two.
    pub fn to_string(&self) -> (s: String)
        ensures
            s@ == block_text(self@),
    {
        let ghost texts = self@.map_values(|l: Line| line_text(l));
        let mut s = String::new();
        let mut i: usize = 0;
        while i < self.entries.len()
            invariant
                i <= self.entries@.len(),
                texts == self@.map_values(|l: Line| line_text(l)),
                texts.len() == self.entries@.len(),
                s@ == join(texts.take(i as int), seq!['\r', '\n']),
            decreases self.entries.len() - i,
        {
            if i > 0 {
                s.push('\r');
                s.push('\n');
            }
            s.append(self.entries[i].0.as_str());
            s.push(':');
            s.push(' ');
            s.append(self.entries[i].1.as_str());
            proof {
                let next = texts.take(i as int + 1);
                assert(next.drop_last() =~= texts.take(i as int));
            }
            i += 1;
        }
        assert(texts.take(self.entries@.len() as int) =~= texts);
        s
    }
}

} // verus!
