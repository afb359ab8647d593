//! The routes the server knows. A request path is classified by its first
//! segment; what follows the first segment is kept as the sub-path.

use crate::text::{chars_eq, chars_of, find_char, first_index_from, split, string_of_range};
use crate::text::{lemma_first_index_from, lemma_split_from_step, split_from};
use vstd::prelude::*;

verus! {

/// Which route a path belongs to.
#[derive(Clone, Copy, Debug, PartialEq, Eq, Structural)]
pub enum PathKind {
    Index,
    NotFound,
    Authentication,
    User,
    Sensor,
    Session,
    SessionSensor,
    SessionSensorData,
}

impl PathKind {
    /// The fixed first segment of the route, with its leading slash.
    pub open spec fn prefix(self) -> Seq<char> {
        match self {
            PathKind::Index => "/"@,
            PathKind::NotFound => ""@,
            PathKind::Authentication => "/authentication"@,
            PathKind::User => "/users"@,
            PathKind::Sensor => "/sensors"@,
            PathKind::Session => "/sessions"@,
            PathKind::SessionSensor => "/sessions-sensors"@,
            PathKind::SessionSensorData => "/sessions-sensors-data"@,
        }
    }

    /// The route whose first segment is exactly `base`, if there is one.
    pub open spec fn of_base(base: Seq<char>) -> Option<PathKind> {
        if base == PathKind::Index.prefix() {
            Some(PathKind::Index)
        } else if base == PathKind::NotFound.prefix() {
            Some(PathKind::NotFound)
        } else if base == PathKind::Authentication.prefix() {
            Some(PathKind::Authentication)
        } else if base == PathKind::User.prefix() {
            Some(PathKind::User)
        } else if base == PathKind::Sensor.prefix() {
            Some(PathKind::Sensor)
        } else if base == PathKind::Session.prefix() {
            Some(PathKind::Session)
        } else if base == PathKind::SessionSensor.prefix() {
            Some(PathKind::SessionSensor)
        } else if base == PathKind::SessionSensorData.prefix() {
            Some(PathKind::SessionSensorData)
        } else {
            None
        }
    }

    /// The first segment of the route.
    pub fn prefix_str(self) -> (s: &'static str)
        ensures
            s@ == self.prefix(),
    {
        match self {
            PathKind::Index => "/",
            PathKind::NotFound => "",
            PathKind::Authentication => "/authentication",
            PathKind::User => "/users",
            PathKind::Sensor => "/sensors",
            PathKind::Session => "/sessions",
            PathKind::SessionSensor => "/sessions-sensors",
            PathKind::SessionSensorData => "/sessions-sensors-data",
        }
    }

    /// Spells out the lengths of the prefixes and where their slashes are.
    pub proof fn lemma_prefixes()
        ensures
            PathKind::Index.prefix() == seq!['/'],
            PathKind::NotFound.prefix().len() == 0,
            forall|k: PathKind|
                k != PathKind::NotFound ==> (#[trigger] k.prefix()).len() >= 1 && k.prefix()[0]
                    == '/' && first_index_from(k.prefix(), '/', 1) is None,
            forall|k: PathKind| PathKind::of_base(#[trigger] k.prefix()) == Some(k),
    {
        reveal_strlit("/");
        reveal_strlit("");
        reveal_strlit("/authentication");
        reveal_strlit("/users");
        reveal_strlit("/sensors");
        reveal_strlit("/sessions");
        reveal_strlit("/sessions-sensors");
        reveal_strlit("/sessions-sensors-data");
        assert forall|k: PathKind| k != PathKind::NotFound implies (#[trigger] k.prefix()).len()
            >= 1 && k.prefix()[0] == '/' && first_index_from(k.prefix(), '/', 1) is None by {
            crate::text::lemma_first_index_from_none(k.prefix(), '/', 1);
        }
    }
}

/// A classified request path: the route and the sub-path that follows it.
#[derive(Debug, PartialEq, Eq)]
pub enum HttpPath {
    Index(String),
    NotFound(String),
    Authentication(String),
    User(String),
    Sensor(String),
    Session(String),
    SessionSensor(String),
    SessionSensorData(String),
}

impl View for HttpPath {
    type V = (PathKind, Seq<char>);

    open spec fn view(&self) -> (PathKind, Seq<char>) {
        match self {
            HttpPath::Index(s) => (PathKind::Index, s@),
            HttpPath::NotFound(s) => (PathKind::NotFound, s@),
            HttpPath::Authentication(s) => (PathKind::Authentication, s@),
            HttpPath::User(s) => (PathKind::User, s@),
            HttpPath::Sensor(s) => (PathKind::Sensor, s@),
            HttpPath::Session(s) => (PathKind::Session, s@),
            HttpPath::SessionSensor(s) => (PathKind::SessionSensor, s@),
            HttpPath::SessionSensorData(s) => (PathKind::SessionSensorData, s@),
        }
    }
}

impl Clone for HttpPath {
    fn clone(&self) -> (p: HttpPath)
        ensures
            p@ == self@,
    {
        HttpPath::with_subpath(self.kind(), self.subpath().clone())
    }
}

impl HttpPath {
    /// The first segment of `path`, rebuilt with a leading slash, and what
    /// follows it. The first character of `path` is taken to be the leading
    /// slash; the cut is at the first `/` after it. With no such `/` the whole
    /// path is the first segment and nothing follows.
    pub open spec fn split_base(path: Seq<char>) -> (Seq<char>, Seq<char>) {
        match first_index_from(path, '/', 1) {
            Some(i) => (seq!['/'] + path.subrange(1, i), path.skip(i)),
            None => (path, Seq::empty()),
        }
    }

    /// The route and sub-path of a raw path: the route whose prefix is exactly
    /// the first segment, with what follows as sub-path; `NotFound` with the
    /// whole path where no prefix fits.
    pub open spec fn parse(path: Seq<char>) -> (PathKind, Seq<char>) {
        let (base, sub) = HttpPath::split_base(path);
        match PathKind::of_base(base) {
            Some(kind) => (kind, sub),
            None => (PathKind::NotFound, path),
        }
    }

    /// The segment of `subpath` at `index`, counted after the leading slash:
    /// `subpath` is cut at every `/`, the first piece is skipped.
    pub open spec fn segment(subpath: Seq<char>, index: int) -> Option<Seq<char>> {
        let pieces = split(subpath, '/');
        if subpath.len() > 0 && 0 <= index && index + 1 < pieces.len() {
            Some(pieces[index + 1])
        } else {
            None
        }
    }

    /// A path made of a route's prefix and a remainder that is empty or begins
    /// with a slash is classified as that route, with the remainder as sub-path.
    pub proof fn lemma_parse_prefixed(kind: PathKind, rest: Seq<char>)
        requires
            kind != PathKind::NotFound,
            rest.len() == 0 || rest[0] == '/',
        ensures
            HttpPath::parse(kind.prefix() + rest) == (kind, rest),
    {
        PathKind::lemma_prefixes();
        let p = kind.prefix();
        let path = p + rest;
        lemma_first_index_from(p, '/', 1);
        if rest.len() > 0 {
            crate::text::lemma_first_index_from_is(path, '/', 1, p.len() as int);
            assert(seq!['/'] + path.subrange(1, p.len() as int) =~= p);
        }
    }

    /// A path whose first segment is no route's prefix is `NotFound`, and keeps
    /// the whole path.
    pub proof fn lemma_parse_unknown(path: Seq<char>)
        requires
            PathKind::of_base(HttpPath::split_base(path).0) is None,
        ensures
            HttpPath::parse(path) == (PathKind::NotFound, path),
    {
    }

    fn with_subpath(kind: PathKind, subpath: String) -> (p: HttpPath)
        ensures
            p@ == (kind, subpath@),
    {
        match kind {
            PathKind::Index => HttpPath::Index(subpath),
            PathKind::NotFound => HttpPath::NotFound(subpath),
            PathKind::Authentication => HttpPath::Authentication(subpath),
            PathKind::User => HttpPath::User(subpath),
            PathKind::Sensor => HttpPath::Sensor(subpath),
            PathKind::Session => HttpPath::Session(subpath),
            PathKind::SessionSensor => HttpPath::SessionSensor(subpath),
            PathKind::SessionSensorData => HttpPath::SessionSensorData(subpath),
        }
    }

    /// Which route this path belongs to.
    pub fn kind(&self) -> (k: PathKind)
        ensures
            k == self@.0,
    {
        match self {
            HttpPath::Index(_) => PathKind::Index,
            HttpPath::NotFound(_) => PathKind::NotFound,
            HttpPath::Authentication(_) => PathKind::Authentication,
            HttpPath::User(_) => PathKind::User,
            HttpPath::Sensor(_) => PathKind::Sensor,
            HttpPath::Session(_) => PathKind::Session,
            HttpPath::SessionSensor(_) => PathKind::SessionSensor,
            HttpPath::SessionSensorData(_) => PathKind::SessionSensorData,
        }
    }

    /// The sub-path that follows the route's prefix.
    pub fn subpath(&self) -> (s: &String)
        ensures
            s@ == self@.1,
    {
        match self {
            HttpPath::Index(s) => s,
            HttpPath::NotFound(s) => s,
            HttpPath::Authentication(s) => s,
            HttpPath::User(s) => s,
            HttpPath::Sensor(s) => s,
            HttpPath::Session(s) => s,
            HttpPath::SessionSensor(s) => s,
            HttpPath::SessionSensorData(s) => s,
        }
    }

    /// One path of every route, each with an empty sub-path, in the order of
    /// declaration.
    pub fn variants() -> (v: Vec<HttpPath>)
        ensures
            v@.len() == 8,
            v@[0]@ == (PathKind::Index, Seq::<char>::empty()),
            v@[1]@ == (PathKind::NotFound, Seq::<char>::empty()),
            v@[2]@ == (PathKind::Authentication, Seq::<char>::empty()),
            v@[3]@ == (PathKind::User, Seq::<char>::empty()),
            v@[4]@ == (PathKind::Sensor, Seq::<char>::empty()),
            v@[5]@ == (PathKind::Session, Seq::<char>::empty()),
            v@[6]@ == (PathKind::SessionSensor, Seq::<char>::empty()),
            v@[7]@ == (PathKind::SessionSensorData, Seq::<char>::empty()),
    {
        let mut v: Vec<HttpPath> = Vec::new();
        v.push(HttpPath::Index(String::new()));
        v.push(HttpPath::NotFound(String::new()));
        v.push(HttpPath::Authentication(String::new()));
        v.push(HttpPath::User(String::new()));
        v.push(HttpPath::Sensor(String::new()));
        v.push(HttpPath::Session(String::new()));
        v.push(HttpPath::SessionSensor(String::new()));
        v.push(HttpPath::SessionSensorData(String::new()));
        v
    }

    /// The prefix of this path's route.
    pub fn base_path(&self) -> (s: String)
        ensures
            s@ == self@.0.prefix(),
    {
        String::from_str(self.kind().prefix_str())
    }

    /// The path written out: the route's prefix, then the sub-path.
    pub fn to_string(&self) -> (s: String)
        ensures
            s@ == self@.0.prefix() + self@.1,
    {
        let mut s = String::from_str(self.kind().prefix_str());
        s.append(self.subpath().as_str());
        s
    }

    fn kind_of_base(base: &[char]) -> (r: Option<PathKind>)
        ensures
            r == PathKind::of_base(base@),
    {
        if chars_eq(base, chars_of(PathKind::Index.prefix_str()).as_slice()) {
            Some(PathKind::Index)
        } else if chars_eq(base, chars_of(PathKind::NotFound.prefix_str()).as_slice()) {
            Some(PathKind::NotFound)
        } else if chars_eq(base, chars_of(PathKind::Authentication.prefix_str()).as_slice()) {
            Some(PathKind::Authentication)
        } else if chars_eq(base, chars_of(PathKind::User.prefix_str()).as_slice()) {
            Some(PathKind::User)
        } else if chars_eq(base, chars_of(PathKind::Sensor.prefix_str()).as_slice()) {
            Some(PathKind::Sensor)
        } else if chars_eq(base, chars_of(PathKind::Session.prefix_str()).as_slice()) {
            Some(PathKind::Session)
        } else if chars_eq(base, chars_of(PathKind::SessionSensor.prefix_str()).as_slice()) {
            Some(PathKind::SessionSensor)
        } else if chars_eq(base, chars_of(PathKind::SessionSensorData.prefix_str()).as_slice()) {
            Some(PathKind::SessionSensorData)
        } else {
            None
        }
    }

    /// Classifies a raw request path.
    pub fn from_string(path: String) -> (p: HttpPath)
        ensures
            p@ == HttpPath::parse(path@),
    {
        let chars = chars_of(path.as_str());
        let n = chars.len();
        match find_char(chars.as_slice(), '/', 1) {
            Some(i) => {
                proof {
                    lemma_first_index_from(chars@, '/', 1);
                }
                let mut base: Vec<char> = Vec::new();
                base.push('/');
                let mut k: usize = 1;
                while k < i
                    invariant
                        1 <= k <= i < chars@.len(),
                        base@ == seq!['/'] + chars@.subrange(1, k as int),
                    decreases i - k,
                {
                    base.push(chars[k]);
                    k += 1;
                }
                match HttpPath::kind_of_base(base.as_slice()) {
                    Some(kind) => {
                        let sub = string_of_range(chars.as_slice(), i, n);
                        HttpPath::with_subpath(kind, sub)
                    },
                    None => HttpPath::NotFound(path),
                }
            },
            None => {
                match HttpPath::kind_of_base(chars.as_slice()) {
                    Some(kind) => HttpPath::with_subpath(kind, String::new()),
                    None => HttpPath::NotFound(path),
                }
            },
        }
    }

    /// The segment of `subpath` at `index`, counted after the leading slash.
    pub fn subsection(subpath: &str, index: usize) -> (r: Option<&str>)
        ensures
            match r {
                Some(s) => HttpPath::segment(subpath@, index as int) == Some(s@),
                None => HttpPath::segment(subpath@, index as int) is None,
            },
    {
        let chars = chars_of(subpath);
        let n = chars.len();
        if n == 0 {
            return None;
        }
        let ghost pieces = split(chars@, '/');
        let mut start: usize = 0;
        let mut skipped: usize = 0;
        while skipped <= index
            invariant
                start <= n == chars@.len(),
                chars@ == subpath@,
                skipped <= start,
                skipped <= index + 1,
                skipped < pieces.len(),
                pieces == split(chars@, '/'),
                pieces.skip(skipped as int) == split_from(chars@, '/', start as int),
            decreases index + 1 - skipped,
        {
            proof {
                lemma_split_from_step(chars@, '/', start as int);
            }
            match find_char(chars.as_slice(), '/', start) {
                Some(i) => {
                    assert(pieces.skip(skipped as int + 1) =~= pieces.skip(skipped as int).skip(
                        1,
                    ));
                    proof {
                        lemma_split_from_step(chars@, '/', i as int + 1);
                    }
                    start = i + 1;
                    skipped += 1;
                },
                None => {
                    assert(pieces.skip(skipped as int).len() == 1);
                    return None;
                },
            }
        }
        proof {
            lemma_split_from_step(chars@, '/', start as int);
        }
        let end = match find_char(chars.as_slice(), '/', start) {
            Some(i) => i,
            None => n,
        };
        assert(pieces[index + 1] == pieces.skip(skipped as int)[0]);
        Some(subpath.substring_char(start, end))
    }
}

} // verus!
