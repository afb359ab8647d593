//! A sensor: an identifier and a type.

use crate::json::{JsonValue, JsonView};
use crate::text::{i64_to_string, signed_decimal};
use crate::data::database::Database;
use crate::models::base_model::{identifier_at, segment_id, BaseModel};
use crate::http::http_response::{HttpResponse, ResponseView};
use crate::models::base_model::answers_stored;
use vstd::prelude::*;

verus! {

/// A sensor.
#[derive(Debug, PartialEq, Eq)]
pub struct Sensor {
    id: i64,
    sensor_type: String,
}

/// The mathematical value of a `Sensor`.
pub struct SensorView {
    pub id: int,
    pub sensor_type: Seq<char>,
}

impl View for Sensor {
    type V = SensorView;

    closed spec fn view(&self) -> SensorView {
        SensorView { id: self.id as int, sensor_type: self.sensor_type@ }
    }
}

impl Clone for Sensor {
    fn clone(&self) -> (r: Sensor)
        ensures
            r@ == self@,
    {
        Sensor { id: self.id, sensor_type: self.sensor_type.clone() }
    }
}

impl Default for Sensor {
    fn default() -> (r: Sensor)
        ensures
            r@ == (SensorView { id: 0, sensor_type: Seq::empty() }),
    {
        Sensor { id: 0, sensor_type: String::new() }
    }
}

impl SensorView {
    /// Whether the sensor has an identifier and a type.
    pub open spec fn valid(self) -> bool {
        self.id >= 0 && self.sensor_type.len() > 0
    }

    /// The JSON text that is shown of a sensor.
    pub open spec fn public_text(self) -> Seq<char> {
        "{\"id\":\""@ + signed_decimal(self.id) + "\", \"type\":\""@ + self.sensor_type + "\"}"@
    }

    /// The sensor with every field that is not set taken from `other`: an
    /// identifier of -1 and an empty type are not set.
    pub open spec fn filled_from(self, other: SensorView) -> SensorView {
        SensorView {
            id: if self.id == -1 {
                other.id
            } else {
                self.id
            },
            sensor_type: if self.sensor_type.len() == 0 {
                other.sensor_type
            } else {
                self.sensor_type
            },
        }
    }

    /// The sensor that a JSON document describes: an object with the string
    /// `type` and, if it is there, the integer `id`, which is 0 otherwise; or
    /// an array of the two, the identifier first.
    pub open spec fn of_json(json: JsonView) -> Option<SensorView> {
        match json {
            JsonView::Array(items) => if items.len() == 2 {
                match (items[0].integer(), items[1].text()) {
                    (Some(id), Some(sensor_type)) => Some(SensorView { id, sensor_type }),
                    _ => None,
                }
            } else {
                None
            },
            JsonView::Object(_) => {
                let id = match json.member("id"@) {
                    Some(v) => v.integer(),
                    None => Some(0int),
                };
                match (id, json.member("type"@)) {
                    (Some(id), Some(JsonView::String(sensor_type))) => Some(
                        SensorView { id, sensor_type },
                    ),
                    _ => None,
                }
            },
            _ => None,
        }
    }
}

impl Sensor {
    /// A sensor with this identifier and this type.
    pub fn new(id: i64, sensor_type: String) -> (r: Self)
        ensures
            r@ == (SensorView { id: id as int, sensor_type: sensor_type@ }),
    {
        Sensor { id, sensor_type }
    }

    /// A sensor of which nothing is set.
    pub fn empty() -> (r: Self)
        ensures
            r@ == (SensorView { id: -1, sensor_type: Seq::empty() }),
    {
        Sensor::new(-1, String::new())
    }

    /// The identifier.
    pub fn get_id(&self) -> (id: &i64)
        ensures
            *id == self@.id,
    {
        &self.id
    }

    /// The type.
    pub fn get_sensor_type(&self) -> (s: &str)
        ensures
            s@ == self@.sensor_type,
    {
        self.sensor_type.as_str()
    }

    /// Whether the sensor has an identifier and a type.
    pub fn is_valid(&self) -> (b: bool)
        ensures
            b == self@.valid(),
    {
        self.id >= 0 && self.sensor_type.as_str().unicode_len() > 0
    }

    /// The JSON text that is shown of the sensor.
    pub fn public_json(&self) -> (s: String)
        ensures
            s@ == self@.public_text(),
    {
        let mut s = String::from_str("{\"id\":\"");
        s.append(i64_to_string(self.id).as_str());
        s.append("\", \"type\":\"");
        s.append(self.sensor_type.as_str());
        s.append("\"}");
        s
    }

    /// Takes every field that is not set from `other`.
    pub fn fill_from(&mut self, other: &Self)
        ensures
            final(self)@ == old(self)@.filled_from(other@),
    {
        if self.id == -1 {
            self.id = other.id;
        }
        if self.sensor_type.as_str().unicode_len() == 0 {
            self.sensor_type = other.sensor_type.clone();
        }
    }

    /// Reads a sensor out of a JSON document.
    pub fn read_json(json: &JsonValue) -> (r: Option<Self>)
        ensures
            match r {
                Some(sensor) => SensorView::of_json(json@) == Some(sensor@),
                None => SensorView::of_json(json@) is None,
            },
    {
        if json.is_object() {
            let id = match json.get("id") {
                Some(v) => v.as_i64(),
                None => Some(0i64),
            };
            let sensor_type = match json.get("type") {
                Some(v) => v.as_str(),
                None => None,
            };
            match (id, sensor_type) {
                (Some(id), Some(t)) => Some(Sensor::new(id, String::from_str(t))),
                _ => None,
            }
        } else {
            match json.array_len() {
                Some(n) => {
                    if n != 2 {
                        return None;
                    }
                    let id = match json.item(0) {
                        Some(v) => v.as_i64(),
                        None => None,
                    };
                    let sensor_type = match json.item(1) {
                        Some(v) => v.as_str(),
                        None => None,
                    };
                    match (id, sensor_type) {
                        (Some(id), Some(t)) => Some(Sensor::new(id, String::from_str(t))),
                        _ => None,
                    }
                },
                None => None,
            }
        }
    }
}

/// Whether `r` is what comes of handing the sensor that `json` describes to
/// `database`: with what the store answers, `r` is the answer to the request
/// to insert it.
pub open spec fn sensor_stored<D: Database>(database: &D, json: JsonView, r: ResponseView) -> bool {
    exists|sensor: Sensor, outcome: Result<Sensor, String>|
        SensorView::of_json(json) == Some(sensor@) && #[trigger] call_ensures(
            D::insert_sensor,
            (database, &sensor),
            outcome,
        ) && answers_stored(
            match outcome {
                Ok(made) => Some(made@.public_text()),
                Err(_) => None,
            },
            "sensor"@,
            r,
        )
}

impl BaseModel for Sensor {
    open spec fn kind_name_text() -> Seq<char> {
        "sensor"@
    }

    open spec fn required_text() -> Seq<char> {
        " Requires value \"type\": string"@
    }

    open spec fn shown(&self) -> Seq<char> {
        self@.public_text()
    }

    open spec fn describes(json: JsonView) -> bool {
        SensorView::of_json(json) is Some
    }

    open spec fn described_by(&self, json: JsonView) -> bool {
        SensorView::of_json(json) == Some(self@)
    }

    fn kind_name() -> (s: &'static str) {
        "sensor"
    }

    fn required_values() -> (s: &'static str) {
        " Requires value \"type\": string"
    }

    fn public_json(&self) -> (s: String) {
        Sensor::public_json(self)
    }

    fn from_json(json: JsonValue) -> (r: Result<Self, String>) {
        match Sensor::read_json(&json) {
            Some(model) => {
                assert(model.described_by(json@));
                Ok(model)
            },
            None => Err(Self::parse_error_msg()),
        }
    }

    /// The sensor is handed to the store as it stands, and what the store
    /// answers is returned.
    fn insert_interface<D: Database>(database: &D, model: Self) -> (r: Result<Self, String>)
        ensures
            call_ensures(D::insert_sensor, (database, &model), r),
    {
        database.insert_sensor(&model)
    }

    /// Where the body describes a sensor, the answer is what comes of
    /// handing that sensor to the store.
    fn insert_model<D: Database>(database: &D, body: Option<JsonValue>) -> (r: HttpResponse)
        ensures
            (body matches Some(json) && SensorView::of_json(json@) is Some) ==> sensor_stored(
                database,
                body->Some_0@,
                r@,
            ),
    {
        match body {
            Some(json) => match Self::from_json(json) {
                Ok(model) => Self::inserted(Self::insert_interface(database, model)),
                Err(message) => HttpResponse::invalid_body(Some(message.as_str())),
            },
            None => HttpResponse::missing_body(Some(Self::required_values())),
        }
    }

    /// The sensor to update is named by the number in the first segment of
    /// `subpath`.
    /// What the store answers is returned; where the path names no record,
    /// the reason is.
    fn update_interface<D: Database>(database: &D, subpath: &str, model: Self) -> (r: Result<
        Self,
        String,
    >)
        ensures
            match identifier_at(subpath@, 0) {
                Ok(id) => exists|number: i64|
                    number == id && #[trigger] call_ensures(
                        D::update_sensor,
                        (database, number, &model),
                        r,
                    ),
                Err(why) => r matches Err(reason) && reason@ == why,
            },
    {
        match segment_id(subpath, 0) {
            Ok(id) => database.update_sensor(id, &model),
            Err(reason) => Err(reason),
        }
    }

    /// The sensor to delete is named by the number in the first segment of
    /// `subpath`.
    /// What the store answers is returned; where the path names no record,
    /// the reason is.
    fn delete_interface<D: Database>(database: &D, subpath: &str) -> (r: Result<(), String>)
        ensures
            match identifier_at(subpath@, 0) {
                Ok(id) => exists|number: i64|
                    number == id && #[trigger] call_ensures(D::delete_sensor, (database, number), r),
                Err(why) => r matches Err(reason) && reason@ == why,
            },
    {
        match segment_id(subpath, 0) {
            Ok(id) => database.delete_sensor(id),
            Err(reason) => Err(reason),
        }
    }
}

} // verus!
