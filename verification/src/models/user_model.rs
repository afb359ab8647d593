//! A user: a name and the hash of a password.

use crate::json::{JsonValue, JsonView};
use crate::data::database::Database;
use crate::http::http_path::HttpPath;
use crate::models::base_model::{missing_identifier, missing_identifier_text, BaseModel};
use crate::http::http_response::{HttpResponse, ResponseView};
use crate::models::base_model::answers_stored;
use vstd::prelude::*;

verus! {

/// A user.
#[derive(Debug, PartialEq, Eq)]
pub struct User {
    username: String,
    password_hash: String,
}

/// The mathematical value of a `User`.
pub struct UserView {
    pub username: Seq<char>,
    pub password_hash: Seq<char>,
}

impl View for User {
    type V = UserView;

    closed spec fn view(&self) -> UserView {
        UserView { username: self.username@, password_hash: self.password_hash@ }
    }
}

impl Clone for User {
    fn clone(&self) -> (r: User)
        ensures
            r@ == self@,
    {
        User { username: self.username.clone(), password_hash: self.password_hash.clone() }
    }
}

impl Default for User {
    fn default() -> (r: User)
        ensures
            r@ == (UserView { username: Seq::empty(), password_hash: Seq::empty() }),
    {
        User { username: String::new(), password_hash: String::new() }
    }
}

impl UserView {
    /// Whether the user has a name and a password hash.
    pub open spec fn valid(self) -> bool {
        self.username.len() > 0 && self.password_hash.len() > 0
    }

    /// The JSON text that is shown of a user: the name, never the hash.
    pub open spec fn public_text(self) -> Seq<char> {
        "{\"username\":\""@ + self.username + "\"}"@
    }

    /// The user with every empty field taken from `other`.
    pub open spec fn filled_from(self, other: UserView) -> UserView {
        UserView {
            username: if self.username.len() == 0 {
                other.username
            } else {
                self.username
            },
            password_hash: if self.password_hash.len() == 0 {
                other.password_hash
            } else {
                self.password_hash
            },
        }
    }

    /// The user that a JSON document describes: an object with the strings
    /// `username` and `password_hash`, or an array of the two in that order.
    pub open spec fn of_json(json: JsonView) -> Option<UserView> {
        match json {
            JsonView::Array(items) => if items.len() == 2 {
                match (items[0].text(), items[1].text()) {
                    (Some(username), Some(password_hash)) => Some(
                        UserView { username, password_hash },
                    ),
                    _ => None,
                }
            } else {
                None
            },
            JsonView::Object(_) => match (json.member("username"@), json.member("password_hash"@)) {
                (Some(JsonView::String(username)), Some(JsonView::String(password_hash))) => Some(
                    UserView { username, password_hash },
                ),
                _ => None,
            },
            _ => None,
        }
    }
}

/// What is shown of a user does not depend on the password hash: two users
/// of one name are shown alike.
pub proof fn lemma_password_hash_is_not_shown(a: UserView, b: UserView)
    requires
        a.username == b.username,
    ensures
        a.public_text() == b.public_text(),
{
}

impl User {
    /// A user with this name and this password hash.
    pub fn new(username: String, password_hash: String) -> (r: Self)
        ensures
            r@ == (UserView { username: username@, password_hash: password_hash@ }),
    {
        User { username, password_hash }
    }

    /// A user without name and without password hash.
    pub fn empty() -> (r: Self)
        ensures
            r@ == (UserView { username: Seq::empty(), password_hash: Seq::empty() }),
    {
        User::new(String::new(), String::new())
    }

    /// The name.
    pub fn get_username(&self) -> (s: &str)
        ensures
            s@ == self@.username,
    {
        self.username.as_str()
    }

    /// The password hash.
    pub fn get_password_hash(&self) -> (s: &str)
        ensures
            s@ == self@.password_hash,
    {
        self.password_hash.as_str()
    }

    /// Whether the user has a name and a password hash.
    pub fn is_valid(&self) -> (b: bool)
        ensures
            b == self@.valid(),
    {
        self.username.as_str().unicode_len() > 0 && self.password_hash.as_str().unicode_len() > 0
    }

    /// The JSON text that is shown of the user.
    pub fn public_json(&self) -> (s: String)
        ensures
            s@ == self@.public_text(),
    {
        let mut s = String::from_str("{\"username\":\"");
        s.append(self.username.as_str());
        s.append("\"}");
        s
    }

    /// Takes every field that is empty from `other`.
    pub fn fill_from(&mut self, other: &Self)
        ensures
            final(self)@ == old(self)@.filled_from(other@),
    {
        if self.username.as_str().unicode_len() == 0 {
            self.username = other.username.clone();
        }
        if self.password_hash.as_str().unicode_len() == 0 {
            self.password_hash = other.password_hash.clone();
        }
    }

    /// Reads a user out of a JSON document.
    pub fn read_json(json: &JsonValue) -> (r: Option<Self>)
        ensures
            match r {
                Some(user) => UserView::of_json(json@) == Some(user@),
                None => UserView::of_json(json@) is None,
            },
    {
        if json.is_object() {
            let username = match json.get("username") {
                Some(v) => v.as_str(),
                None => None,
            };
            let password_hash = match json.get("password_hash") {
                Some(v) => v.as_str(),
                None => None,
            };
            match (username, password_hash) {
                (Some(u), Some(p)) => Some(User::new(String::from_str(u), String::from_str(p))),
                _ => None,
            }
        } else {
            match json.array_len() {
                Some(n) => {
                    if n != 2 {
                        return None;
                    }
                    let username = match json.item(0) {
                        Some(v) => v.as_str(),
                        None => None,
                    };
                    let password_hash = match json.item(1) {
                        Some(v) => v.as_str(),
                        None => None,
                    };
                    match (username, password_hash) {
                        (Some(u), Some(p)) => Some(
                            User::new(String::from_str(u), String::from_str(p)),
                        ),
                        _ => None,
                    }
                },
                None => None,
            }
        }
    }
}

/// Whether `r` is what comes of handing the user that `json` describes to
/// `database`: with what the store answers, `r` is the answer to the request
/// to insert it.
pub open spec fn user_stored<D: Database>(database: &D, json: JsonView, r: ResponseView) -> bool {
    exists|user: User, outcome: Result<User, String>|
        UserView::of_json(json) == Some(user@) && #[trigger] call_ensures(
            D::insert_user,
            (database, &user),
            outcome,
        ) && answers_stored(
            match outcome {
                Ok(made) => Some(made@.public_text()),
                Err(_) => None,
            },
            "user"@,
            r,
        )
}

impl BaseModel for User {
    open spec fn kind_name_text() -> Seq<char> {
        "user"@
    }

    open spec fn required_text() -> Seq<char> {
        " Requires values \"username\": string and \"password_hash\": string"@
    }

    open spec fn shown(&self) -> Seq<char> {
        self@.public_text()
    }

    open spec fn describes(json: JsonView) -> bool {
        UserView::of_json(json) is Some
    }

    open spec fn described_by(&self, json: JsonView) -> bool {
        UserView::of_json(json) == Some(self@)
    }

    fn kind_name() -> (s: &'static str) {
        "user"
    }

    fn required_values() -> (s: &'static str) {
        " Requires values \"username\": string and \"password_hash\": string"
    }

    fn public_json(&self) -> (s: String) {
        User::public_json(self)
    }

    fn from_json(json: JsonValue) -> (r: Result<Self, String>) {
        match User::read_json(&json) {
            Some(user) => {
                assert(user.described_by(json@));
                Ok(user)
            },
            None => Err(Self::parse_error_msg()),
        }
    }

    /// The user is handed to the store as it stands, and what the store
    /// answers is returned.
    fn insert_interface<D: Database>(database: &D, model: Self) -> (r: Result<Self, String>)
        ensures
            call_ensures(D::insert_user, (database, &model), r),
    {
        database.insert_user(&model)
    }

    /// Where the body describes a user, the answer is what comes of
    /// handing that user to the store.
    fn insert_model<D: Database>(database: &D, body: Option<JsonValue>) -> (r: HttpResponse)
        ensures
            (body matches Some(json) && UserView::of_json(json@) is Some) ==> user_stored(
                database,
                body->Some_0@,
                r@,
            ),
    {
        match body {
            Some(json) => match Self::from_json(json) {
                Ok(model) => Self::inserted(Self::insert_interface(database, model)),
                Err(message) => HttpResponse::invalid_body(Some(message.as_str())),
            },
            None => HttpResponse::missing_body(Some(Self::required_values())),
        }
    }

    /// The user to update is named by the first segment of `subpath`.
    /// What the store answers is returned; where the path names no record,
    /// the reason is.
    fn update_interface<D: Database>(database: &D, subpath: &str, model: Self) -> (r: Result<
        Self,
        String,
    >)
        ensures
            match HttpPath::segment(subpath@, 0) {
                Some(name) => exists|username: &str|
                    username@ == name && #[trigger] call_ensures(
                        D::update_user,
                        (database, username, &model),
                        r,
                    ),
                None => r matches Err(reason) && reason@ == missing_identifier_text(subpath@),
            },
    {
        match HttpPath::subsection(subpath, 0) {
            Some(username) => database.update_user(username, &model),
            None => Err(missing_identifier(subpath)),
        }
    }

    /// The user to delete is named by the first segment of `subpath`.
    /// What the store answers is returned; where the path names no record,
    /// the reason is.
    fn delete_interface<D: Database>(database: &D, subpath: &str) -> (r: Result<(), String>)
        ensures
            match HttpPath::segment(subpath@, 0) {
                Some(name) => exists|username: &str|
                    username@ == name && #[trigger] call_ensures(
                        D::delete_user,
                        (database, username),
                        r,
                    ),
                None => r matches Err(reason) && reason@ == missing_identifier_text(subpath@),
            },
    {
        match HttpPath::subsection(subpath, 0) {
            Some(username) => database.delete_user(username),
            None => Err(missing_identifier(subpath)),
        }
    }
}

} // verus!
