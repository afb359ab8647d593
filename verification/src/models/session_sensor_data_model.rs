//! A reading: what a sensor delivered in a session at one time.

use crate::bridge::json_text_of;
use crate::json::{JsonMember, JsonValue, JsonView};
use crate::text::{i64_to_string, signed_decimal};
use crate::data::database::Database;
use crate::http::http_path::HttpPath;
use crate::models::base_model::{identifier_at, missing_identifier, missing_identifier_text};
use crate::models::base_model::{segment_id, BaseModel};
use crate::http::http_header::HttpStatus;
use crate::http::http_response::{error_text, HeaderKind, HttpResponse, ResponseView};
use crate::models::base_model::answers_stored;
use vstd::prelude::*;

verus! {

/// A reading.
#[derive(Debug, PartialEq, Eq)]
pub struct SessionSensorData {
    id: Option<i64>,
    datetime: String,
    data_blob: JsonValue,
}

/// The mathematical value of a `SessionSensorData`.
pub struct SessionSensorDataView {
    pub id: Option<int>,
    pub datetime: Seq<char>,
    pub data_blob: JsonView,
}

impl View for SessionSensorData {
    type V = SessionSensorDataView;

    closed spec fn view(&self) -> SessionSensorDataView {
        SessionSensorDataView {
            id: match self.id {
                Some(id) => Some(id as int),
                None => None,
            },
            datetime: self.datetime@,
            data_blob: self.data_blob@,
        }
    }
}

impl Clone for SessionSensorData {
    fn clone(&self) -> (r: SessionSensorData)
        ensures
            r@ == self@,
    {
        SessionSensorData {
            id: self.id,
            datetime: self.datetime.clone(),
            data_blob: self.data_blob.clone(),
        }
    }
}

impl Default for SessionSensorData {
    fn default() -> (r: SessionSensorData)
        ensures
            r@ == (SessionSensorDataView {
                id: None,
                datetime: Seq::empty(),
                data_blob: JsonView::Null,
            }),
    {
        SessionSensorData { id: None, datetime: String::new(), data_blob: JsonValue::Null }
    }
}

impl SessionSensorDataView {
    /// Whether the reading has an identifier, a time, and an object as data.
    pub open spec fn valid(self) -> bool {
        self.id is Some && self.datetime.len() > 0 && self.data_blob is Object
    }

    /// The identifier as a JSON document: the number, or `null`.
    pub open spec fn id_json(self) -> JsonView {
        match self.id {
            Some(id) => JsonView::Number(signed_decimal(id)),
            None => JsonView::Null,
        }
    }

    /// The reading as a JSON document: an object with `id`, `datetime` and
    /// `data_blob`.
    pub open spec fn public_document(self) -> JsonView {
        JsonView::Object(
            seq![
                ("id"@, self.id_json()),
                ("datetime"@, JsonView::String(self.datetime)),
                ("data_blob"@, self.data_blob),
            ],
        )
    }

    /// The JSON text that is shown of a reading.
    pub open spec fn public_text(self) -> Seq<char> {
        json_text_of(self.public_document())
    }

    /// The reading with every field that is not set taken from `other`: a
    /// missing identifier, an empty time and `null` as data are not set.
    pub open spec fn filled_from(self, other: SessionSensorDataView) -> SessionSensorDataView {
        SessionSensorDataView {
            id: if self.id is None {
                other.id
            } else {
                self.id
            },
            datetime: if self.datetime.len() == 0 {
                other.datetime
            } else {
                self.datetime
            },
            data_blob: if self.data_blob is Null {
                other.data_blob
            } else {
                self.data_blob
            },
        }
    }

    /// The identifier that a JSON document holds: none for `null`, the
    /// integer for a number that is one.
    pub open spec fn id_of_json(json: JsonView) -> Option<Option<int>> {
        match json {
            JsonView::Null => Some(None),
            _ => match json.integer() {
                Some(id) => Some(Some(id)),
                None => None,
            },
        }
    }

    /// The reading that a JSON document describes: an object with the string
    /// `datetime`, any `data_blob` and, if it is there, `id`, an integer or
    /// `null`; or an array of the three, `id` first.
    pub open spec fn of_json(json: JsonView) -> Option<SessionSensorDataView> {
        match json {
            JsonView::Array(items) => if items.len() == 3 {
                match (SessionSensorDataView::id_of_json(items[0]), items[1].text()) {
                    (Some(id), Some(datetime)) => Some(
                        SessionSensorDataView { id, datetime, data_blob: items[2] },
                    ),
                    _ => None,
                }
            } else {
                None
            },
            JsonView::Object(_) => {
                let id = match json.member("id"@) {
                    Some(v) => SessionSensorDataView::id_of_json(v),
                    None => Some(None),
                };
                match (id, json.member("datetime"@), json.member("data_blob"@)) {
                    (Some(id), Some(JsonView::String(datetime)), Some(data_blob)) => Some(
                        SessionSensorDataView { id, datetime, data_blob },
                    ),
                    _ => None,
                }
            },
            _ => None,
        }
    }
}

/// What the body of a request to insert many readings must hold, as it
/// stands in messages.
pub open spec fn batch_required_text() -> Seq<char> {
    " Requires the values \"datapoints\": array [ { \"id\": i64, \"datetime\": string, \"data_blob\": string }, ... ]"@
}

/// Whether a JSON document holds readings to insert: an object whose member
/// `datapoints` is an array, each item of which describes a reading.
pub open spec fn holds_batch(json: JsonView) -> bool {
    match json.member("datapoints"@) {
        Some(JsonView::Array(items)) => forall|i: int|
            0 <= i < items.len() ==> SessionSensorDataView::of_json(#[trigger] items[i]) is Some,
        _ => false,
    }
}

/// Whether `r` answers a request to insert the readings that `body` holds.
///
/// Without a body, and with a body that holds no readings, the answer is
/// `400 Bad Request`. Otherwise the store decides between `204 No Content`
/// and `400 Bad Request`.
pub open spec fn answers_batch(body: Option<JsonView>, r: ResponseView) -> bool {
    match body {
        None => r.is(
            HttpStatus::BadRequest,
            HeaderKind::Json,
            error_text("Missing request body."@ + batch_required_text()),
        ),
        Some(json) => if holds_batch(json) {
            r.is(HttpStatus::NoContent, HeaderKind::Json, Seq::empty()) || r.is(
                HttpStatus::BadRequest,
                HeaderKind::Json,
                error_text(batch_required_text()),
            )
        } else {
            r.is(
                HttpStatus::BadRequest,
                HeaderKind::Json,
                error_text("Invalid request body."@ + batch_required_text()),
            )
        },
    }
}

impl SessionSensorData {
    /// A reading with this identifier, this time and this data.
    pub fn new(id: Option<i64>, datetime: String, data_blob: JsonValue) -> (r: Self)
        ensures
            r@ == (SessionSensorDataView {
                id: match id {
                    Some(id) => Some(id as int),
                    None => None,
                },
                datetime: datetime@,
                data_blob: data_blob@,
            }),
    {
        SessionSensorData { id, datetime, data_blob }
    }

    /// A reading of which nothing is set.
    pub fn empty() -> (r: Self)
        ensures
            r@ == (SessionSensorDataView {
                id: None,
                datetime: Seq::empty(),
                data_blob: JsonView::Null,
            }),
    {
        SessionSensorData::new(None, String::new(), JsonValue::Null)
    }

    /// The identifier.
    pub fn get_id(&self) -> (id: &Option<i64>)
        ensures
            match *id {
                Some(n) => self@.id == Some(n as int),
                None => self@.id is None,
            },
    {
        &self.id
    }

    /// The time.
    pub fn get_datetime(&self) -> (s: &str)
        ensures
            s@ == self@.datetime,
    {
        self.datetime.as_str()
    }

    /// The data.
    pub fn get_blob(&self) -> (blob: &JsonValue)
        ensures
            blob@ == self@.data_blob,
    {
        &self.data_blob
    }

    /// Whether the reading has an identifier, a time, and an object as data.
    pub fn is_valid(&self) -> (b: bool)
        ensures
            b == self@.valid(),
    {
        self.id.is_some() && self.datetime.as_str().unicode_len() > 0 && self.data_blob.is_object()
    }

    /// The reading as a JSON document.
    pub fn public_document(&self) -> (document: JsonValue)
        ensures
            document@ == self@.public_document(),
    {
        let id = match self.id {
            Some(id) => JsonValue::Number(i64_to_string(id)),
            None => JsonValue::Null,
        };
        let mut members: Vec<JsonMember> = Vec::new();
        members.push(JsonMember { name: String::from_str("id"), value: id });
        members.push(
            JsonMember {
                name: String::from_str("datetime"),
                value: JsonValue::String(self.datetime.clone()),
            },
        );
        members.push(
            JsonMember { name: String::from_str("data_blob"), value: self.data_blob.clone() },
        );
        let document = JsonValue::Object(members);
        proof {
            JsonValue::lemma_object_view(members);
            assert(document@->Object_0 =~= self@.public_document()->Object_0);
        }
        document
    }

    /// The JSON text that is shown of the reading.
    pub fn public_json(&self) -> (s: String)
        ensures
            s@ == self@.public_text(),
    {
        crate::bridge::json_text(&self.public_document())
    }

    /// Takes every field that is not set from `other`.
    pub fn fill_from(&mut self, other: &Self)
        ensures
            final(self)@ == old(self)@.filled_from(other@),
    {
        if self.id.is_none() {
            self.id = other.id;
        }
        if self.datetime.as_str().unicode_len() == 0 {
            self.datetime = other.datetime.clone();
        }
        if self.data_blob.is_null() {
            self.data_blob = other.data_blob.clone();
        }
    }

    /// The identifier that a JSON document holds.
    fn read_id(json: &JsonValue) -> (r: Option<Option<i64>>)
        ensures
            match r {
                Some(Some(id)) => SessionSensorDataView::id_of_json(json@) == Some(
                    Some(id as int),
                ),
                Some(None) => SessionSensorDataView::id_of_json(json@) == Some(None::<int>),
                None => SessionSensorDataView::id_of_json(json@) is None,
            },
    {
        if json.is_null() {
            Some(None)
        } else {
            match json.as_i64() {
                Some(id) => Some(Some(id)),
                None => None,
            }
        }
    }

    /// Reads a reading out of a JSON document.
    pub fn read_json(json: &JsonValue) -> (r: Option<Self>)
        ensures
            match r {
                Some(reading) => SessionSensorDataView::of_json(json@) == Some(reading@),
                None => SessionSensorDataView::of_json(json@) is None,
            },
    {
        if json.is_object() {
            let id = match json.get("id") {
                Some(v) => SessionSensorData::read_id(v),
                None => Some(None),
            };
            let datetime = match json.get("datetime") {
                Some(v) => v.as_str(),
                None => None,
            };
            match (id, datetime, json.get("data_blob")) {
                (Some(id), Some(datetime), Some(blob)) => Some(
                    SessionSensorData::new(id, String::from_str(datetime), blob.clone()),
                ),
                _ => None,
            }
        } else {
            match json.array_len() {
                Some(n) => {
                    if n != 3 {
                        return None;
                    }
                    let id = match json.item(0) {
                        Some(v) => SessionSensorData::read_id(v),
                        None => None,
                    };
                    let datetime = match json.item(1) {
                        Some(v) => v.as_str(),
                        None => None,
                    };
                    match (id, datetime, json.item(2)) {
                        (Some(id), Some(datetime), Some(blob)) => Some(
                            SessionSensorData::new(id, String::from_str(datetime), blob.clone()),
                        ),
                        _ => None,
                    }
                },
                None => None,
            }
        }
    }
}

impl SessionSensorData {
    /// The readings that the items of an array describe, if every item
    /// describes one.
    fn read_all(items: &Vec<JsonValue>) -> (r: Option<Vec<SessionSensorData>>)
        ensures
            match r {
                Some(readings) => readings@.len() == items@.len() && forall|i: int|
                    0 <= i < items@.len() ==> SessionSensorDataView::of_json(
                        #[trigger] items@[i]@,
                    ) == Some(readings@[i]@),
                None => exists|i: int|
                    0 <= i < items@.len() && SessionSensorDataView::of_json(
                        #[trigger] items@[i]@,
                    ) is None,
            },
    {
        let mut readings: Vec<SessionSensorData> = Vec::new();
        let mut i: usize = 0;
        while i < items.len()
            invariant
                i <= items@.len(),
                readings@.len() == i,
                forall|k: int|
                    0 <= k < i ==> SessionSensorDataView::of_json(#[trigger] items@[k]@) == Some(
                        readings@[k]@,
                    ),
            decreases items.len() - i,
        {
            match SessionSensorData::read_json(&items[i]) {
                Some(reading) => {
                    readings.push(reading);
                },
                None => {
                    return None;
                },
            }
            i += 1;
        }
        Some(readings)
    }

    /// The answer to a request to insert many readings, once the store has
    /// answered.
    pub fn batched(outcome: Result<Vec<SessionSensorData>, String>) -> (r: HttpResponse)
        ensures
            match outcome {
                Ok(_) => r@.is(HttpStatus::NoContent, HeaderKind::Json, Seq::empty()),
                Err(_) => r@.is(
                    HttpStatus::BadRequest,
                    HeaderKind::Json,
                    error_text(batch_required_text()),
                ),
            },
    {
        match outcome {
            Ok(_) => HttpResponse::no_content(),
            Err(_) => HttpResponse::bad_request(
                " Requires the values \"datapoints\": array [ { \"id\": i64, \"datetime\": string, \"data_blob\": string }, ... ]",
            ),
        }
    }

    /// Answers a request to insert the readings that `body` holds under
    /// `datapoints`.
    pub fn try_batch_model<D: Database>(database: &D, body: Option<JsonValue>) -> (r:
        HttpResponse)
        ensures
            answers_batch(
                match body {
                    Some(json) => Some(json@),
                    None => None,
                },
                r@,
            ),
    {
        let msg =
            " Requires the values \"datapoints\": array [ { \"id\": i64, \"datetime\": string, \"data_blob\": string }, ... ]";
        match body {
            Some(json) => {
                let readings = match json.get("datapoints") {
                    Some(list) => match list.as_array() {
                        Some(items) => {
                            let found = SessionSensorData::read_all(items);
                            proof {
                                JsonValue::lemma_array_view(*items);
                                let views = list@->Array_0;
                                if found is None {
                                    let i = choose|i: int|
                                        0 <= i < items@.len() && SessionSensorDataView::of_json(
                                            #[trigger] items@[i]@,
                                        ) is None;
                                    assert(SessionSensorDataView::of_json(views[i]) is None);
                                }
                            }
                            found
                        },
                        None => None,
                    },
                    None => None,
                };
                match readings {
                    Some(data) => SessionSensorData::batched(
                        database.batch_session_sensor_data(&data),
                    ),
                    None => HttpResponse::invalid_body(Some(msg)),
                }
            },
            None => HttpResponse::missing_body(Some(msg)),
        }
    }
}

/// Whether `r` is what comes of handing the reading that `json` describes to
/// `database`: with what the store answers, `r` is the answer to the request
/// to insert it.
pub open spec fn reading_stored<D: Database>(database: &D, json: JsonView, r: ResponseView) -> bool {
    exists|reading: SessionSensorData, outcome: Result<SessionSensorData, String>|
        SessionSensorDataView::of_json(json) == Some(reading@) && #[trigger] call_ensures(
            D::insert_session_sensor_data,
            (database, &reading),
            outcome,
        ) && answers_stored(
            match outcome {
                Ok(made) => Some(made@.public_text()),
                Err(_) => None,
            },
            "session sensor data"@,
            r,
        )
}

impl BaseModel for SessionSensorData {
    open spec fn kind_name_text() -> Seq<char> {
        "session sensor data"@
    }

    open spec fn required_text() -> Seq<char> {
        " Requires values \"datetime\": string and \"data_blob\": string"@
    }

    open spec fn shown(&self) -> Seq<char> {
        self@.public_text()
    }

    open spec fn describes(json: JsonView) -> bool {
        SessionSensorDataView::of_json(json) is Some
    }

    open spec fn described_by(&self, json: JsonView) -> bool {
        SessionSensorDataView::of_json(json) == Some(self@)
    }

    fn kind_name() -> (s: &'static str) {
        "session sensor data"
    }

    fn required_values() -> (s: &'static str) {
        " Requires values \"datetime\": string and \"data_blob\": string"
    }

    fn public_json(&self) -> (s: String) {
        SessionSensorData::public_json(self)
    }

    fn from_json(json: JsonValue) -> (r: Result<Self, String>) {
        match SessionSensorData::read_json(&json) {
            Some(model) => {
                assert(model.described_by(json@));
                Ok(model)
            },
            None => Err(Self::parse_error_msg()),
        }
    }

    /// The reading is handed to the store as it stands, and what the store
    /// answers is returned.
    fn insert_interface<D: Database>(database: &D, model: Self) -> (r: Result<Self, String>)
        ensures
            call_ensures(D::insert_session_sensor_data, (database, &model), r),
    {
        database.insert_session_sensor_data(&model)
    }

    /// Where the body describes a reading, the answer is what comes of
    /// handing that reading to the store.
    fn insert_model<D: Database>(database: &D, body: Option<JsonValue>) -> (r: HttpResponse)
        ensures
            (body matches Some(json) && SessionSensorDataView::of_json(json@) is Some) ==> reading_stored(
                database,
                body->Some_0@,
                r@,
            ),
    {
        match body {
            Some(json) => match Self::from_json(json) {
                Ok(model) => Self::inserted(Self::insert_interface(database, model)),
                Err(message) => HttpResponse::invalid_body(Some(message.as_str())),
            },
            None => HttpResponse::missing_body(Some(Self::required_values())),
        }
    }

    /// The reading to update is named by the number in the first segment of
    /// `subpath` and the time in the second.
    /// What the store answers is returned; where the path names no record,
    /// the reason is.
    fn update_interface<D: Database>(database: &D, subpath: &str, model: Self) -> (r: Result<
        Self,
        String,
    >)
        ensures
            match (HttpPath::segment(subpath@, 0), HttpPath::segment(subpath@, 1)) {
                (Some(_), Some(time)) => match identifier_at(subpath@, 0) {
                    Ok(id) => exists|number: i64, datetime: &str|
                        number == id && datetime@ == time && #[trigger] call_ensures(
                            D::update_session_sensor_datapoint,
                            (database, number, datetime, &model),
                            r,
                        ),
                    Err(why) => r matches Err(reason) && reason@ == why,
                },
                _ => r matches Err(reason) && reason@ == missing_identifier_text(subpath@),
            },
    {
        match HttpPath::subsection(subpath, 0) {
            Some(_) => match HttpPath::subsection(subpath, 1) {
                Some(datetime) => match segment_id(subpath, 0) {
                    Ok(id) => database.update_session_sensor_datapoint(id, datetime, &model),
                    Err(reason) => Err(reason),
                },
                None => Err(missing_identifier(subpath)),
            },
            None => Err(missing_identifier(subpath)),
        }
    }

    /// The reading to delete is named by the number in the first segment of
    /// `subpath` and the time in the second.
    /// What the store answers is returned; where the path names no record,
    /// the reason is.
    fn delete_interface<D: Database>(database: &D, subpath: &str) -> (r: Result<(), String>)
        ensures
            match (HttpPath::segment(subpath@, 0), HttpPath::segment(subpath@, 1)) {
                (Some(_), Some(time)) => match identifier_at(subpath@, 0) {
                    Ok(id) => exists|number: i64, datetime: &str|
                        number == id && datetime@ == time && #[trigger] call_ensures(
                            D::delete_session_sensor_datapoint,
                            (database, number, datetime),
                            r,
                        ),
                    Err(why) => r matches Err(reason) && reason@ == why,
                },
                _ => r matches Err(reason) && reason@ == missing_identifier_text(subpath@),
            },
    {
        match HttpPath::subsection(subpath, 0) {
            Some(_) => match HttpPath::subsection(subpath, 1) {
                Some(datetime) => match segment_id(subpath, 0) {
                    Ok(id) => database.delete_session_sensor_datapoint(id, datetime),
                    Err(reason) => Err(reason),
                },
                None => Err(missing_identifier(subpath)),
            },
            None => Err(missing_identifier(subpath)),
        }
    }
}

} // verus!
