//! A recording session: an identifier and the name of the user it belongs to.

use crate::json::{JsonValue, JsonView};
use crate::text::{i64_to_string, signed_decimal};
use crate::data::database::Database;
use crate::models::base_model::{identifier_at, segment_id, BaseModel};
use crate::http::http_response::{HttpResponse, ResponseView};
use crate::models::base_model::answers_stored;
use vstd::prelude::*;

verus! {

/// A session.
#[derive(Debug, PartialEq, Eq)]
pub struct Session {
    id: i64,
    username: String,
}

/// The mathematical value of a `Session`.
pub struct SessionView {
    pub id: int,
    pub username: Seq<char>,
}

impl View for Session {
    type V = SessionView;

    closed spec fn view(&self) -> SessionView {
        SessionView { id: self.id as int, username: self.username@ }
    }
}

impl Clone for Session {
    fn clone(&self) -> (r: Session)
        ensures
            r@ == self@,
    {
        Session { id: self.id, username: self.username.clone() }
    }
}

impl Default for Session {
    fn default() -> (r: Session)
        ensures
            r@ == (SessionView { id: 0, username: Seq::empty() }),
    {
        Session { id: 0, username: String::new() }
    }
}

impl SessionView {
    /// Whether the session has an identifier and a user.
    pub open spec fn valid(self) -> bool {
        self.id >= 0 && self.username.len() > 0
    }

    /// The JSON text that is shown of a session.
    pub open spec fn public_text(self) -> Seq<char> {
        "{\"session_id\":\""@ + signed_decimal(self.id) + "\", \"username\":\""@ + self.username + "\"}"@
    }

    /// The session with every field that is not set taken from `other`: an
    /// identifier of -1 and an empty name are not set.
    pub open spec fn filled_from(self, other: SessionView) -> SessionView {
        SessionView {
            id: if self.id == -1 {
                other.id
            } else {
                self.id
            },
            username: if self.username.len() == 0 {
                other.username
            } else {
                self.username
            },
        }
    }

    /// The session that a JSON document describes: an object with the string
    /// `username` and, if it is there, the integer `id`, which is 0 otherwise; or
    /// an array of the two, the identifier first.
    pub open spec fn of_json(json: JsonView) -> Option<SessionView> {
        match json {
            JsonView::Array(items) => if items.len() == 2 {
                match (items[0].integer(), items[1].text()) {
                    (Some(id), Some(username)) => Some(SessionView { id, username }),
                    _ => None,
                }
            } else {
                None
            },
            JsonView::Object(_) => {
                let id = match json.member("id"@) {
                    Some(v) => v.integer(),
                    None => Some(0int),
                };
                match (id, json.member("username"@)) {
                    (Some(id), Some(JsonView::String(username))) => Some(
                        SessionView { id, username },
                    ),
                    _ => None,
                }
            },
            _ => None,
        }
    }
}

impl Session {
    /// A session with this identifier and this user.
    pub fn new(id: i64, username: String) -> (r: Self)
        ensures
            r@ == (SessionView { id: id as int, username: username@ }),
    {
        Session { id, username }
    }

    /// A session of which nothing is set.
    pub fn empty() -> (r: Self)
        ensures
            r@ == (SessionView { id: -1, username: Seq::empty() }),
    {
        Session::new(-1, String::new())
    }

    /// The identifier.
    pub fn get_id(&self) -> (id: &i64)
        ensures
            *id == self@.id,
    {
        &self.id
    }

    /// The name of the user.
    pub fn get_username(&self) -> (s: &str)
        ensures
            s@ == self@.username,
    {
        self.username.as_str()
    }

    /// Whether the session has an identifier and a user.
    pub fn is_valid(&self) -> (b: bool)
        ensures
            b == self@.valid(),
    {
        self.id >= 0 && self.username.as_str().unicode_len() > 0
    }

    /// The JSON text that is shown of the session.
    pub fn public_json(&self) -> (s: String)
        ensures
            s@ == self@.public_text(),
    {
        let mut s = String::from_str("{\"session_id\":\"");
        s.append(i64_to_string(self.id).as_str());
        s.append("\", \"username\":\"");
        s.append(self.username.as_str());
        s.append("\"}");
        s
    }

    /// Takes every field that is not set from `other`.
    pub fn fill_from(&mut self, other: &Self)
        ensures
            final(self)@ == old(self)@.filled_from(other@),
    {
        if self.id == -1 {
            self.id = other.id;
        }
        if self.username.as_str().unicode_len() == 0 {
            self.username = other.username.clone();
        }
    }

    /// Reads a session out of a JSON document.
    pub fn read_json(json: &JsonValue) -> (r: Option<Self>)
        ensures
            match r {
                Some(session) => SessionView::of_json(json@) == Some(session@),
                None => SessionView::of_json(json@) is None,
            },
    {
        if json.is_object() {
            let id = match json.get("id") {
                Some(v) => v.as_i64(),
                None => Some(0i64),
            };
            let username = match json.get("username") {
                Some(v) => v.as_str(),
                None => None,
            };
            match (id, username) {
                (Some(id), Some(t)) => Some(Session::new(id, String::from_str(t))),
                _ => None,
            }
        } else {
            match json.array_len() {
                Some(n) => {
                    if n != 2 {
                        return None;
                    }
                    let id = match json.item(0) {
                        Some(v) => v.as_i64(),
                        None => None,
                    };
                    let username = match json.item(1) {
                        Some(v) => v.as_str(),
                        None => None,
                    };
                    match (id, username) {
                        (Some(id), Some(t)) => Some(Session::new(id, String::from_str(t))),
                        _ => None,
                    }
                },
                None => None,
            }
        }
    }
}

/// Whether `r` is what comes of handing the session that `json` describes to
/// `database`: with what the store answers, `r` is the answer to the request
/// to insert it.
pub open spec fn session_stored<D: Database>(database: &D, json: JsonView, r: ResponseView) -> bool {
    exists|session: Session, outcome: Result<Session, String>|
        SessionView::of_json(json) == Some(session@) && #[trigger] call_ensures(
            D::insert_session,
            (database, &session),
            outcome,
        ) && answers_stored(
            match outcome {
                Ok(made) => Some(made@.public_text()),
                Err(_) => None,
            },
            "session"@,
            r,
        )
}

impl BaseModel for Session {
    open spec fn kind_name_text() -> Seq<char> {
        "session"@
    }

    open spec fn required_text() -> Seq<char> {
        " Requires value \"username\": string"@
    }

    open spec fn shown(&self) -> Seq<char> {
        self@.public_text()
    }

    open spec fn describes(json: JsonView) -> bool {
        SessionView::of_json(json) is Some
    }

    open spec fn described_by(&self, json: JsonView) -> bool {
        SessionView::of_json(json) == Some(self@)
    }

    fn kind_name() -> (s: &'static str) {
        "session"
    }

    fn required_values() -> (s: &'static str) {
        " Requires value \"username\": string"
    }

    fn public_json(&self) -> (s: String) {
        Session::public_json(self)
    }

    fn from_json(json: JsonValue) -> (r: Result<Self, String>) {
        match Session::read_json(&json) {
            Some(model) => {
                assert(model.described_by(json@));
                Ok(model)
            },
            None => Err(Self::parse_error_msg()),
        }
    }

    /// The session is handed to the store as it stands, and what the store
    /// answers is returned.
    fn insert_interface<D: Database>(database: &D, model: Self) -> (r: Result<Self, String>)
        ensures
            call_ensures(D::insert_session, (database, &model), r),
    {
        database.insert_session(&model)
    }

    /// Where the body describes a session, the answer is what comes of
    /// handing that session to the store.
    fn insert_model<D: Database>(database: &D, body: Option<JsonValue>) -> (r: HttpResponse)
        ensures
            (body matches Some(json) && SessionView::of_json(json@) is Some) ==> session_stored(
                database,
                body->Some_0@,
                r@,
            ),
    {
        match body {
            Some(json) => match Self::from_json(json) {
                Ok(model) => Self::inserted(Self::insert_interface(database, model)),
                Err(message) => HttpResponse::invalid_body(Some(message.as_str())),
            },
            None => HttpResponse::missing_body(Some(Self::required_values())),
        }
    }

    /// The session to update is named by the number in the first segment of
    /// `subpath`.
    /// What the store answers is returned; where the path names no record,
    /// the reason is.
    fn update_interface<D: Database>(database: &D, subpath: &str, model: Self) -> (r: Result<
        Self,
        String,
    >)
        ensures
            match identifier_at(subpath@, 0) {
                Ok(id) => exists|number: i64|
                    number == id && #[trigger] call_ensures(
                        D::update_session,
                        (database, number, &model),
                        r,
                    ),
                Err(why) => r matches Err(reason) && reason@ == why,
            },
    {
        match segment_id(subpath, 0) {
            Ok(id) => database.update_session(id, &model),
            Err(reason) => Err(reason),
        }
    }

    /// The session to delete is named by the number in the first segment of
    /// `subpath`.
    /// What the store answers is returned; where the path names no record,
    /// the reason is.
    fn delete_interface<D: Database>(database: &D, subpath: &str) -> (r: Result<(), String>)
        ensures
            match identifier_at(subpath@, 0) {
                Ok(id) => exists|number: i64|
                    number == id && #[trigger] call_ensures(D::delete_session, (database, number), r),
                Err(why) => r matches Err(reason) && reason@ == why,
            },
    {
        match segment_id(subpath, 0) {
            Ok(id) => database.delete_session(id),
            Err(reason) => Err(reason),
        }
    }
}

} // verus!
