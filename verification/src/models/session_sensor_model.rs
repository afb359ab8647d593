//! The link between a session and a sensor that records in it.

use crate::json::{JsonValue, JsonView};
use crate::text::{i64_to_string, signed_decimal};
use crate::data::database::Database;
use crate::models::base_model::{identifier_at, segment_id, BaseModel};
use crate::http::http_response::{HttpResponse, ResponseView};
use crate::models::base_model::answers_stored;
use vstd::prelude::*;

verus! {

/// A sensor in a session.
#[derive(Debug, PartialEq, Eq)]
pub struct SessionSensor {
    id: i64,
    session_id: i64,
    sensor_id: i64,
}

/// The mathematical value of a `SessionSensor`.
pub struct SessionSensorView {
    pub id: int,
    pub session_id: int,
    pub sensor_id: int,
}

impl View for SessionSensor {
    type V = SessionSensorView;

    closed spec fn view(&self) -> SessionSensorView {
        SessionSensorView {
            id: self.id as int,
            session_id: self.session_id as int,
            sensor_id: self.sensor_id as int,
        }
    }
}

impl Clone for SessionSensor {
    fn clone(&self) -> (r: SessionSensor)
        ensures
            r@ == self@,
    {
        SessionSensor { id: self.id, session_id: self.session_id, sensor_id: self.sensor_id }
    }
}

impl Default for SessionSensor {
    fn default() -> (r: SessionSensor)
        ensures
            r@ == (SessionSensorView { id: 0, session_id: 0, sensor_id: 0 }),
    {
        SessionSensor { id: 0, session_id: 0, sensor_id: 0 }
    }
}

impl SessionSensorView {
    /// Whether all three identifiers are set.
    pub open spec fn valid(self) -> bool {
        self.id >= 0 && self.session_id >= 0 && self.sensor_id >= 0
    }

    /// The JSON text that is shown of a link.
    pub open spec fn public_text(self) -> Seq<char> {
        "{\"id\":\""@ + signed_decimal(self.id) + "\", \"session_id\":\""@ + signed_decimal(
            self.session_id,
        ) + "\", \"sensor_id\":\""@ + signed_decimal(self.sensor_id) + "\"}"@
    }

    /// The link with every identifier that is not set taken from `other`: an
    /// identifier of -1 is not set.
    pub open spec fn filled_from(self, other: SessionSensorView) -> SessionSensorView {
        SessionSensorView {
            id: if self.id == -1 {
                other.id
            } else {
                self.id
            },
            session_id: if self.session_id == -1 {
                other.session_id
            } else {
                self.session_id
            },
            sensor_id: if self.sensor_id == -1 {
                other.sensor_id
            } else {
                self.sensor_id
            },
        }
    }

    /// The link that a JSON document describes: an object with the integers
    /// `session_id` and `sensor_id` and, if it is there, the integer `id`,
    /// which is 0 otherwise; or an array of the three, `id` first.
    pub open spec fn of_json(json: JsonView) -> Option<SessionSensorView> {
        match json {
            JsonView::Array(items) => if items.len() == 3 {
                match (items[0].integer(), items[1].integer(), items[2].integer()) {
                    (Some(id), Some(session_id), Some(sensor_id)) => Some(
                        SessionSensorView { id, session_id, sensor_id },
                    ),
                    _ => None,
                }
            } else {
                None
            },
            JsonView::Object(_) => {
                let id = match json.member("id"@) {
                    Some(v) => v.integer(),
                    None => Some(0int),
                };
                let session_id = match json.member("session_id"@) {
                    Some(v) => v.integer(),
                    None => None,
                };
                let sensor_id = match json.member("sensor_id"@) {
                    Some(v) => v.integer(),
                    None => None,
                };
                match (id, session_id, sensor_id) {
                    (Some(id), Some(session_id), Some(sensor_id)) => Some(
                        SessionSensorView { id, session_id, sensor_id },
                    ),
                    _ => None,
                }
            },
            _ => None,
        }
    }
}

impl SessionSensor {
    /// A link with these identifiers.
    pub fn new(id: i64, session_id: i64, sensor_id: i64) -> (r: Self)
        ensures
            r@ == (SessionSensorView {
                id: id as int,
                session_id: session_id as int,
                sensor_id: sensor_id as int,
            }),
    {
        SessionSensor { id, session_id, sensor_id }
    }

    /// A link of which nothing is set.
    pub fn empty() -> (r: Self)
        ensures
            r@ == (SessionSensorView { id: -1, session_id: -1, sensor_id: -1 }),
    {
        SessionSensor::new(-1, -1, -1)
    }

    /// The identifier of the link.
    pub fn get_id(&self) -> (id: &i64)
        ensures
            *id == self@.id,
    {
        &self.id
    }

    /// The identifier of the session.
    pub fn get_session_id(&self) -> (id: &i64)
        ensures
            *id == self@.session_id,
    {
        &self.session_id
    }

    /// The identifier of the sensor.
    pub fn get_sensor_id(&self) -> (id: &i64)
        ensures
            *id == self@.sensor_id,
    {
        &self.sensor_id
    }

    /// Whether all three identifiers are set.
    pub fn is_valid(&self) -> (b: bool)
        ensures
            b == self@.valid(),
    {
        self.id >= 0 && self.session_id >= 0 && self.sensor_id >= 0
    }

    /// The JSON text that is shown of the link.
    pub fn public_json(&self) -> (s: String)
        ensures
            s@ == self@.public_text(),
    {
        let mut s = String::from_str("{\"id\":\"");
        s.append(i64_to_string(self.id).as_str());
        s.append("\", \"session_id\":\"");
        s.append(i64_to_string(self.session_id).as_str());
        s.append("\", \"sensor_id\":\"");
        s.append(i64_to_string(self.sensor_id).as_str());
        s.append("\"}");
        s
    }

    /// Takes every identifier that is not set from `other`.
    pub fn fill_from(&mut self, other: &Self)
        ensures
            final(self)@ == old(self)@.filled_from(other@),
    {
        if self.id == -1 {
            self.id = other.id;
        }
        if self.session_id == -1 {
            self.session_id = other.session_id;
        }
        if self.sensor_id == -1 {
            self.sensor_id = other.sensor_id;
        }
    }

    /// Reads a link out of a JSON document.
    pub fn read_json(json: &JsonValue) -> (r: Option<Self>)
        ensures
            match r {
                Some(link) => SessionSensorView::of_json(json@) == Some(link@),
                None => SessionSensorView::of_json(json@) is None,
            },
    {
        if json.is_object() {
            let id = match json.get("id") {
                Some(v) => v.as_i64(),
                None => Some(0i64),
            };
            let session_id = match json.get("session_id") {
                Some(v) => v.as_i64(),
                None => None,
            };
            let sensor_id = match json.get("sensor_id") {
                Some(v) => v.as_i64(),
                None => None,
            };
            match (id, session_id, sensor_id) {
                (Some(id), Some(session_id), Some(sensor_id)) => Some(
                    SessionSensor::new(id, session_id, sensor_id),
                ),
                _ => None,
            }
        } else {
            match json.array_len() {
                Some(n) => {
                    if n != 3 {
                        return None;
                    }
                    let id = match json.item(0) {
                        Some(v) => v.as_i64(),
                        None => None,
                    };
                    let session_id = match json.item(1) {
                        Some(v) => v.as_i64(),
                        None => None,
                    };
                    let sensor_id = match json.item(2) {
                        Some(v) => v.as_i64(),
                        None => None,
                    };
                    match (id, session_id, sensor_id) {
                        (Some(id), Some(session_id), Some(sensor_id)) => Some(
                            SessionSensor::new(id, session_id, sensor_id),
                        ),
                        _ => None,
                    }
                },
                None => None,
            }
        }
    }
}

/// Whether `r` is what comes of handing the link that `json` describes to
/// `database`: with what the store answers, `r` is the answer to the request
/// to insert it.
pub open spec fn link_stored<D: Database>(database: &D, json: JsonView, r: ResponseView) -> bool {
    exists|link: SessionSensor, outcome: Result<SessionSensor, String>|
        SessionSensorView::of_json(json) == Some(link@) && #[trigger] call_ensures(
            D::insert_session_sensor,
            (database, &link),
            outcome,
        ) && answers_stored(
            match outcome {
                Ok(made) => Some(made@.public_text()),
                Err(_) => None,
            },
            "session sensor"@,
            r,
        )
}

impl BaseModel for SessionSensor {
    open spec fn kind_name_text() -> Seq<char> {
        "session sensor"@
    }

    open spec fn required_text() -> Seq<char> {
        " Requires values \"session_id\": string and \"sensor_id\": string"@
    }

    open spec fn shown(&self) -> Seq<char> {
        self@.public_text()
    }

    open spec fn describes(json: JsonView) -> bool {
        SessionSensorView::of_json(json) is Some
    }

    open spec fn described_by(&self, json: JsonView) -> bool {
        SessionSensorView::of_json(json) == Some(self@)
    }

    fn kind_name() -> (s: &'static str) {
        "session sensor"
    }

    fn required_values() -> (s: &'static str) {
        " Requires values \"session_id\": string and \"sensor_id\": string"
    }

    fn public_json(&self) -> (s: String) {
        SessionSensor::public_json(self)
    }

    fn from_json(json: JsonValue) -> (r: Result<Self, String>) {
        match SessionSensor::read_json(&json) {
            Some(model) => {
                assert(model.described_by(json@));
                Ok(model)
            },
            None => Err(Self::parse_error_msg()),
        }
    }

    /// The link is handed to the store as it stands, and what the store
    /// answers is returned.
    fn insert_interface<D: Database>(database: &D, model: Self) -> (r: Result<Self, String>)
        ensures
            call_ensures(D::insert_session_sensor, (database, &model), r),
    {
        database.insert_session_sensor(&model)
    }

    /// Where the body describes a link, the answer is what comes of
    /// handing that link to the store.
    fn insert_model<D: Database>(database: &D, body: Option<JsonValue>) -> (r: HttpResponse)
        ensures
            (body matches Some(json) && SessionSensorView::of_json(json@) is Some) ==> link_stored(
                database,
                body->Some_0@,
                r@,
            ),
    {
        match body {
            Some(json) => match Self::from_json(json) {
                Ok(model) => Self::inserted(Self::insert_interface(database, model)),
                Err(message) => HttpResponse::invalid_body(Some(message.as_str())),
            },
            None => HttpResponse::missing_body(Some(Self::required_values())),
        }
    }

    /// The link to update is named by the number in the first segment of
    /// `subpath`.
    /// What the store answers is returned; where the path names no record,
    /// the reason is.
    fn update_interface<D: Database>(database: &D, subpath: &str, model: Self) -> (r: Result<
        Self,
        String,
    >)
        ensures
            match identifier_at(subpath@, 0) {
                Ok(id) => exists|number: i64|
                    number == id && #[trigger] call_ensures(
                        D::update_session_sensor,
                        (database, number, &model),
                        r,
                    ),
                Err(why) => r matches Err(reason) && reason@ == why,
            },
    {
        match segment_id(subpath, 0) {
            Ok(id) => database.update_session_sensor(id, &model),
            Err(reason) => Err(reason),
        }
    }

    /// The link to delete is named by the number in the first segment of
    /// `subpath`.
    /// What the store answers is returned; where the path names no record,
    /// the reason is.
    fn delete_interface<D: Database>(database: &D, subpath: &str) -> (r: Result<(), String>)
        ensures
            match identifier_at(subpath@, 0) {
                Ok(id) => exists|number: i64|
                    number == id && #[trigger] call_ensures(D::delete_session_sensor, (database, number), r),
                Err(why) => r matches Err(reason) && reason@ == why,
            },
    {
        match segment_id(subpath, 0) {
            Ok(id) => database.delete_session_sensor(id),
            Err(reason) => Err(reason),
        }
    }
}

} // verus!
