//! What the five kinds of records have in common: how a record is read out
//! of the body of a request, how it is shown, and how a request to insert,
//! update or delete one is answered.

use crate::data::database::Database;
use crate::http::http_header::HttpStatus;
use crate::http::http_path::HttpPath;
use crate::http::http_response::{error_text, HeaderKind, HttpResponse, ResponseView};
use crate::json::{JsonValue, JsonView};
use crate::text::trim_end_nul;
use vstd::prelude::*;

verus! {

/// What is said when a record cannot be made.
pub open spec fn create_error_text(kind_name: Seq<char>) -> Seq<char> {
    "Error creating "@ + kind_name + seq!['.']
}

/// What is said when a document does not describe a record.
pub open spec fn parse_error_text(kind_name: Seq<char>) -> Seq<char> {
    "failed to parse to "@ + kind_name + seq!['.'] + create_error_text(kind_name)
}

/// What is said when a path lacks the identifier of a record.
pub open spec fn missing_identifier_text(subpath: Seq<char>) -> Seq<char> {
    "Missing identifier in path: "@ + subpath
}

/// What is said when the identifier in a path is no number.
pub open spec fn bad_identifier_text(identifier: Seq<char>) -> Seq<char> {
    "Failed to parse id to i64: "@ + crate::text::integer_error(identifier)
}

/// The identifier that a sub-path names in its segment at `index`, or what is
/// said when there is none.
pub open spec fn identifier_at(subpath: Seq<char>, index: int) -> Result<int, Seq<char>> {
    match HttpPath::segment(subpath, index) {
        Some(text) => match crate::text::parse_signed(text, i64::MIN as int, i64::MAX as int) {
            Some(id) => Ok(id),
            None => Err(bad_identifier_text(text)),
        },
        None => Err(missing_identifier_text(subpath)),
    }
}

/// What is said when a path lacks the identifier of a record.
pub fn missing_identifier(subpath: &str) -> (s: String)
    ensures
        s@ == missing_identifier_text(subpath@),
{
    let mut s = String::from_str("Missing identifier in path: ");
    s.append(subpath);
    s
}

/// The identifier that `subpath` names in its segment at `index`.
pub fn segment_id(subpath: &str, index: usize) -> (r: Result<i64, String>)
    ensures
        match r {
            Ok(id) => identifier_at(subpath@, index as int) == Ok::<int, Seq<char>>(id as int),
            Err(reason) => identifier_at(subpath@, index as int) == Err::<int, Seq<char>>(
                reason@,
            ),
        },
{
    match HttpPath::subsection(subpath, index) {
        Some(text) => match crate::text::read_i64(text) {
            Ok(id) => Ok(id),
            Err(why) => {
                let mut reason = String::from_str("Failed to parse id to i64: ");
                reason.append(why.as_str());
                Err(reason)
            },
        },
        None => Err(missing_identifier(subpath)),
    }
}

/// Whether `r` answers a request to insert a record of kind `M` with `body`.
///
/// Without a body, and with a body that does not describe a record, the
/// answer is `400 Bad Request` and says what is wrong. Otherwise the store
/// decides: `201 Created` with the record that was made, or `400 Bad Request`.
pub open spec fn answers_insert<M: BaseModel>(body: Option<JsonView>, r: ResponseView) -> bool {
    match body {
        None => r.is(
            HttpStatus::BadRequest,
            HeaderKind::Json,
            error_text("Missing request body."@ + M::required_text()),
        ),
        Some(json) => if M::describes(json) {
            (exists|made: M|
                r.is(HttpStatus::Created, HeaderKind::Json, trim_end_nul(#[trigger] made.shown())))
                || r.is(
                HttpStatus::BadRequest,
                HeaderKind::Json,
                error_text(create_error_text(M::kind_name_text())),
            )
        } else {
            r.is(
                HttpStatus::BadRequest,
                HeaderKind::Json,
                error_text("Invalid request body."@ + parse_error_text(M::kind_name_text())),
            )
        },
    }
}

/// Whether `r` answers a request to insert a record of the kind named
/// `kind_name`, once the store has answered: `201 Created` with `made`, the
/// text that is shown of the record that the store made, or `400 Bad Request`
/// where it made none.
pub open spec fn answers_stored(
    made: Option<Seq<char>>,
    kind_name: Seq<char>,
    r: ResponseView,
) -> bool {
    match made {
        Some(text) => r.is(HttpStatus::Created, HeaderKind::Json, trim_end_nul(text)),
        None => r.is(
            HttpStatus::BadRequest,
            HeaderKind::Json,
            error_text(create_error_text(kind_name)),
        ),
    }
}

/// Whether `r` answers a request to update a record of kind `M` with `body`.
///
/// Without a body, and with a body that does not describe a record, the
/// answer is `400 Bad Request` and says what is wrong. Otherwise the store
/// decides: `200 OK` with the record as it is now, or `404 Not Found`.
pub open spec fn answers_update<M: BaseModel>(body: Option<JsonView>, r: ResponseView) -> bool {
    match body {
        None => r.is(
            HttpStatus::BadRequest,
            HeaderKind::Json,
            error_text("Missing request body."@ + M::required_text()),
        ),
        Some(json) => if M::describes(json) {
            (exists|updated: M|
                r.is(HttpStatus::OK, HeaderKind::Json, trim_end_nul(#[trigger] updated.shown())))
                || r.is(
                HttpStatus::NotFound,
                HeaderKind::Json,
                error_text(M::kind_name_text() + " not found"@),
            )
        } else {
            r.is(
                HttpStatus::BadRequest,
                HeaderKind::Json,
                error_text(create_error_text(M::kind_name_text())),
            )
        },
    }
}

/// Whether `r` answers a request to delete a record of kind `M`: the store
/// decides between `204 No Content` and `404 Not Found`.
pub open spec fn answers_delete<M: BaseModel>(r: ResponseView) -> bool {
    r.is(HttpStatus::NoContent, HeaderKind::Json, Seq::empty()) || r.is(
        HttpStatus::NotFound,
        HeaderKind::Json,
        error_text(M::kind_name_text() + " not found"@),
    )
}

/// A kind of record that the server keeps.
pub trait BaseModel: Sized {
    /// The name of the kind, as it stands in messages.
    spec fn kind_name_text() -> Seq<char>;

    /// What the body of a request must hold to describe a record, as it
    /// stands in messages.
    spec fn required_text() -> Seq<char>;

    /// The JSON text that is shown of the record.
    spec fn shown(&self) -> Seq<char>;

    /// Whether a JSON document describes a record of this kind.
    spec fn describes(json: JsonView) -> bool;

    /// Whether `self` is the record that a JSON document describes.
    spec fn described_by(&self, json: JsonView) -> bool;

    /// The name of the kind.
    fn kind_name() -> (s: &'static str)
        ensures
            s@ == Self::kind_name_text(),
    ;

    /// What the body of a request must hold.
    fn required_values() -> (s: &'static str)
        ensures
            s@ == Self::required_text(),
    ;

    /// The JSON text that is shown of the record.
    fn public_json(&self) -> (s: String)
        ensures
            s@ == self.shown(),
    ;

    /// Reads a record out of a JSON document.
    fn from_json(json: JsonValue) -> (r: Result<Self, String>)
        ensures
            match r {
                Ok(model) => Self::describes(json@) && model.described_by(json@),
                Err(message) => !Self::describes(json@) && message@ == parse_error_text(
                    Self::kind_name_text(),
                ),
            },
    ;

    /// Hands a record to the store to be inserted.
    fn insert_interface<D: Database>(database: &D, model: Self) -> Result<Self, String>;

    /// Hands a record to the store to replace the one that `subpath` names.
    fn update_interface<D: Database>(database: &D, subpath: &str, model: Self) -> Result<
        Self,
        String,
    >;

    /// Asks the store to delete the record that `subpath` names.
    fn delete_interface<D: Database>(database: &D, subpath: &str) -> Result<(), String>;

    /// What is said when a record cannot be made.
    fn create_error_msg() -> (s: String)
        ensures
            s@ == create_error_text(Self::kind_name_text()),
    {
        let mut s = String::from_str("Error creating ");
        s.append(Self::kind_name());
        s.push('.');
        s
    }

    /// What is said when a document does not describe a record.
    fn parse_error_msg() -> (s: String)
        ensures
            s@ == parse_error_text(Self::kind_name_text()),
    {
        let mut s = String::from_str("failed to parse to ");
        s.append(Self::kind_name());
        s.push('.');
        s.append(Self::create_error_msg().as_str());
        s
    }

    /// `200 OK` with the record.
    fn to_ok_response(&self) -> (r: HttpResponse)
        ensures
            r@.is(HttpStatus::OK, HeaderKind::Json, trim_end_nul(self.shown())),
    {
        HttpResponse::from_vec(self.public_json())
    }

    /// `201 Created` with the record.
    fn to_created_response(&self) -> (r: HttpResponse)
        ensures
            r@.is(HttpStatus::Created, HeaderKind::Json, trim_end_nul(self.shown())),
    {
        let r = HttpResponse::from_vec(self.public_json());
        HttpResponse { status: HttpStatus::Created, headers: r.headers, body: r.body }
    }

    /// The answer to a request to insert a record, once the store has
    /// answered.
    fn inserted(outcome: Result<Self, String>) -> (r: HttpResponse)
        ensures
            match outcome {
                Ok(made) => r@.is(
                    HttpStatus::Created,
                    HeaderKind::Json,
                    trim_end_nul(made.shown()),
                ),
                Err(_) => r@.is(
                    HttpStatus::BadRequest,
                    HeaderKind::Json,
                    error_text(create_error_text(Self::kind_name_text())),
                ),
            },
    {
        match outcome {
            Ok(made) => made.to_created_response(),
            Err(_) => HttpResponse::bad_request(Self::create_error_msg().as_str()),
        }
    }

    /// The answer to a request to update a record, once the store has
    /// answered.
    fn updated(outcome: Result<Self, String>) -> (r: HttpResponse)
        ensures
            match outcome {
                Ok(model) => r@.is(HttpStatus::OK, HeaderKind::Json, trim_end_nul(model.shown())),
                Err(_) => r@.is(
                    HttpStatus::NotFound,
                    HeaderKind::Json,
                    error_text(Self::kind_name_text() + " not found"@),
                ),
            },
    {
        match outcome {
            Ok(model) => model.to_ok_response(),
            Err(_) => HttpResponse::json_404(Self::kind_name()),
        }
    }

    /// The answer to a request to delete a record, once the store has
    /// answered.
    fn deleted(outcome: Result<(), String>) -> (r: HttpResponse)
        ensures
            match outcome {
                Ok(_) => r@.is(HttpStatus::NoContent, HeaderKind::Json, Seq::empty()),
                Err(_) => r@.is(
                    HttpStatus::NotFound,
                    HeaderKind::Json,
                    error_text(Self::kind_name_text() + " not found"@),
                ),
            },
    {
        match outcome {
            Ok(_) => HttpResponse::no_content(),
            Err(_) => HttpResponse::json_404(Self::kind_name()),
        }
    }

    /// Answers a request to insert the record that `body` describes.
    fn insert_model<D: Database>(database: &D, body: Option<JsonValue>) -> (r: HttpResponse)
        ensures
            match body {
                None => r@.is(
                    HttpStatus::BadRequest,
                    HeaderKind::Json,
                    error_text("Missing request body."@ + Self::required_text()),
                ),
                Some(json) => if Self::describes(json@) {
                    (exists|made: Self|
                        r@.is(
                            HttpStatus::Created,
                            HeaderKind::Json,
                            trim_end_nul(#[trigger] made.shown()),
                        )) || r@.is(
                        HttpStatus::BadRequest,
                        HeaderKind::Json,
                        error_text(create_error_text(Self::kind_name_text())),
                    )
                } else {
                    r@.is(
                        HttpStatus::BadRequest,
                        HeaderKind::Json,
                        error_text(
                            "Invalid request body."@ + parse_error_text(Self::kind_name_text()),
                        ),
                    )
                },
            },
    {
        match body {
            Some(json) => match Self::from_json(json) {
                Ok(model) => Self::inserted(Self::insert_interface(database, model)),
                Err(message) => HttpResponse::invalid_body(Some(message.as_str())),
            },
            None => HttpResponse::missing_body(Some(Self::required_values())),
        }
    }

    /// Answers a request to update the record that `subpath` names by what
    /// `body` describes.
    fn update_model<D: Database>(database: &D, subpath: &str, body: Option<JsonValue>) -> (r:
        HttpResponse)
        ensures
            match body {
                None => r@.is(
                    HttpStatus::BadRequest,
                    HeaderKind::Json,
                    error_text("Missing request body."@ + Self::required_text()),
                ),
                Some(json) => if Self::describes(json@) {
                    (exists|updated: Self|
                        r@.is(
                            HttpStatus::OK,
                            HeaderKind::Json,
                            trim_end_nul(#[trigger] updated.shown()),
                        )) || r@.is(
                        HttpStatus::NotFound,
                        HeaderKind::Json,
                        error_text(Self::kind_name_text() + " not found"@),
                    )
                } else {
                    r@.is(
                        HttpStatus::BadRequest,
                        HeaderKind::Json,
                        error_text(create_error_text(Self::kind_name_text())),
                    )
                },
            },
    {
        match body {
            Some(json) => match Self::from_json(json) {
                Ok(model) => Self::updated(Self::update_interface(database, subpath, model)),
                Err(_) => HttpResponse::bad_request(Self::create_error_msg().as_str()),
            },
            None => HttpResponse::missing_body(Some(Self::required_values())),
        }
    }

    /// Answers a request to delete the record that `subpath` names.
    fn delete_model<D: Database>(database: &D, subpath: &str) -> (r: HttpResponse)
        ensures
            r@.is(HttpStatus::NoContent, HeaderKind::Json, Seq::empty()) || r@.is(
                HttpStatus::NotFound,
                HeaderKind::Json,
                error_text(Self::kind_name_text() + " not found"@),
            ),
    {
        Self::deleted(Self::delete_interface(database, subpath))
    }
}

} // verus!
