//! A store that keeps nothing: it answers every question from a fixed set of
//! values, and echoes what it is given.

use crate::data::database::Database;
use crate::http::http_header::HttpStatus;
use crate::http::http_path::PathKind;
use crate::http::http_request::RequestView;
use crate::http::http_response::HeaderKind;
use crate::json::{JsonValue, JsonView};
use crate::models::user_model::UserView;
use crate::router::{inserts, lemma_posted_user_is_created, ReplyView};
use crate::text::trim_end_nul;
use crate::models::{Sensor, Session, SessionSensor, SessionSensorData, User};
use vstd::prelude::*;

verus! {

/// A store that keeps nothing.
pub struct MockDatabase;

/// Whether `v` holds the four users that the store knows.
pub open spec fn known_users(v: Seq<User>) -> bool {
    &&& v.len() == 4
    &&& v[0]@.username == "user_1"@ && v[0]@.password_hash == "pass_1"@
    &&& v[1]@.username == "user_2"@ && v[1]@.password_hash == "pass_2"@
    &&& v[2]@.username == "user_3"@ && v[2]@.password_hash == "pass_3"@
    &&& v[3]@.username == "user_4"@ && v[3]@.password_hash == "pass_4"@
}

/// Whether `v` holds the four sensors that the store knows.
pub open spec fn known_sensors(v: Seq<Sensor>) -> bool {
    &&& v.len() == 4
    &&& v[0]@.id == 1 && v[0]@.sensor_type == "sensor_type_1"@
    &&& v[1]@.id == 2 && v[1]@.sensor_type == "sensor_type_2"@
    &&& v[2]@.id == 3 && v[2]@.sensor_type == "sensor_type_3"@
    &&& v[3]@.id == 4 && v[3]@.sensor_type == "sensor_type_4"@
}

/// Whether `v` holds the four sessions that the store knows.
pub open spec fn known_sessions(v: Seq<Session>) -> bool {
    &&& v.len() == 4
    &&& v[0]@.id == 1 && v[0]@.username == "username_1"@
    &&& v[1]@.id == 2 && v[1]@.username == "username_2"@
    &&& v[2]@.id == 3 && v[2]@.username == "username_3"@
    &&& v[3]@.id == 4 && v[3]@.username == "username_4"@
}

/// Whether `v` holds the four links that the store knows.
pub open spec fn known_links(v: Seq<SessionSensor>) -> bool {
    &&& v.len() == 4
    &&& forall|i: int|
        0 <= i < 4 ==> (#[trigger] v[i])@.id == i + 1 && v[i]@.session_id == i + 1
            && v[i]@.sensor_id == i + 1
}

/// Whether `v` holds the four readings that the store knows.
pub open spec fn known_readings(v: Seq<SessionSensorData>) -> bool {
    &&& v.len() == 4
    &&& v[0]@.id == Some(1int) && v[0]@.datetime == "datetime_1"@
    &&& v[1]@.id == Some(2int) && v[1]@.datetime == "datetime_2"@
    &&& v[2]@.id == Some(3int) && v[2]@.datetime == "datetime_3"@
    &&& v[3]@.id == Some(4int) && v[3]@.datetime == "datetime_4"@
    &&& forall|i: int| 0 <= i < 4 ==> (#[trigger] v[i])@.data_blob == JsonView::Object(Seq::empty())
}

impl MockDatabase {
    pub const USERNAME: &'static str = "username";

    pub const PASSWORD: &'static str = "password";

    pub const COOKIE_SESSION_ID: &'static str = "cookie_session_id";

    pub const SESSION_ID: i64 = 12345;

    pub const SENSOR_ID: i64 = 67890;

    pub const SENSOR_TYPE: &'static str = "sensor_type";

    /// The store.
    pub fn new() -> MockDatabase {
        MockDatabase {  }
    }

    /// The four users that the store knows.
    pub fn users() -> (v: Vec<User>)
        ensures
            known_users(v@),
    {
        let mut v: Vec<User> = Vec::new();
        v.push(User::new(String::from_str("user_1"), String::from_str("pass_1")));
        v.push(User::new(String::from_str("user_2"), String::from_str("pass_2")));
        v.push(User::new(String::from_str("user_3"), String::from_str("pass_3")));
        v.push(User::new(String::from_str("user_4"), String::from_str("pass_4")));
        v
    }

    /// The four sensors that the store knows.
    pub fn sensors() -> (v: Vec<Sensor>)
        ensures
            known_sensors(v@),
    {
        let mut v: Vec<Sensor> = Vec::new();
        v.push(Sensor::new(1, String::from_str("sensor_type_1")));
        v.push(Sensor::new(2, String::from_str("sensor_type_2")));
        v.push(Sensor::new(3, String::from_str("sensor_type_3")));
        v.push(Sensor::new(4, String::from_str("sensor_type_4")));
        v
    }

    /// The four sessions that the store knows.
    pub fn sessions() -> (v: Vec<Session>)
        ensures
            known_sessions(v@),
    {
        let mut v: Vec<Session> = Vec::new();
        v.push(Session::new(1, String::from_str("username_1")));
        v.push(Session::new(2, String::from_str("username_2")));
        v.push(Session::new(3, String::from_str("username_3")));
        v.push(Session::new(4, String::from_str("username_4")));
        v
    }

    /// The four links between sessions and sensors that the store knows.
    pub fn sessions_sensors() -> (v: Vec<SessionSensor>)
        ensures
            known_links(v@),
    {
        let mut v: Vec<SessionSensor> = Vec::new();
        v.push(SessionSensor::new(1, 1, 1));
        v.push(SessionSensor::new(2, 2, 2));
        v.push(SessionSensor::new(3, 3, 3));
        v.push(SessionSensor::new(4, 4, 4));
        v
    }

    /// An object without members.
    fn empty_object() -> (document: JsonValue)
        ensures
            document@ == JsonView::Object(Seq::empty()),
    {
        let members = Vec::new();
        let document = JsonValue::Object(members);
        proof {
            JsonValue::lemma_object_view(members);
            assert(document@->Object_0 =~= Seq::empty());
        }
        document
    }

    /// The four readings that the store knows.
    pub fn sessions_sensors_data() -> (v: Vec<SessionSensorData>)
        ensures
            known_readings(v@),
    {
        let mut v: Vec<SessionSensorData> = Vec::new();
        v.push(
            SessionSensorData::new(
                Some(1),
                String::from_str("datetime_1"),
                MockDatabase::empty_object(),
            ),
        );
        v.push(
            SessionSensorData::new(
                Some(2),
                String::from_str("datetime_2"),
                MockDatabase::empty_object(),
            ),
        );
        v.push(
            SessionSensorData::new(
                Some(3),
                String::from_str("datetime_3"),
                MockDatabase::empty_object(),
            ),
        );
        v.push(
            SessionSensorData::new(
                Some(4),
                String::from_str("datetime_4"),
                MockDatabase::empty_object(),
            ),
        );
        v
    }
}

impl Database for MockDatabase {
    fn temp_session_id_solution(&self) {
    }

    fn get_session_user(&self, session_id: &str) -> (r: Result<User, String>)
        ensures
            r matches Ok(user) && user@.username == session_id@ && user@.password_hash
                == "password"@,
    {
        Ok(User::new(String::from_str(session_id), String::from_str(MockDatabase::PASSWORD)))
    }

    fn is_admin(&self, _user: &User) -> (b: bool)
        ensures
            b,
    {
        true
    }

    fn login(&self, _user: &User) -> (r: Result<String, String>)
        ensures
            r matches Ok(cookie) && cookie@ == "cookie_session_id"@,
    {
        Ok(String::from_str(MockDatabase::COOKIE_SESSION_ID))
    }

    fn logout(&self, _session_id: &str) -> (r: Result<(), String>)
        ensures
            r is Ok,
    {
        Ok(())
    }

    fn renew_session(&self, _old_session: &str) -> (r: Result<String, String>)
        ensures
            r matches Ok(cookie) && cookie@ == "cookie_session_id"@ + seq!['2'],
    {
        let mut cookie = String::from_str(MockDatabase::COOKIE_SESSION_ID);
        cookie.push('2');
        Ok(cookie)
    }

    fn insert_user(&self, user: &User) -> (r: Result<User, String>)
        ensures
            r matches Ok(made) && made@ == user@,
    {
        Ok(user.clone())
    }

    fn get_users(&self) -> (r: Result<Vec<User>, String>)
        ensures
            r matches Ok(v) && known_users(v@),
    {
        Ok(MockDatabase::users())
    }

    fn get_user(&self, username: &str) -> (r: Result<User, String>)
        ensures
            r matches Ok(user) && user@.username == username@ && user@.password_hash.len() == 0,
    {
        Ok(User::new(String::from_str(username), String::new()))
    }

    fn update_user(&self, username: &str, updated_user: &User) -> (r: Result<User, String>)
        ensures
            r matches Ok(user) && user@ == updated_user@.filled_from(
                crate::models::user_model::UserView {
                    username: username@,
                    password_hash: "password"@,
                },
            ),
    {
        let mut user = User::empty();
        user.fill_from(updated_user);
        user.fill_from(
            &User::new(String::from_str(username), String::from_str(MockDatabase::PASSWORD)),
        );
        Ok(user)
    }

    fn delete_user(&self, _username: &str) -> (r: Result<(), String>)
        ensures
            r is Ok,
    {
        Ok(())
    }

    fn insert_sensor(&self, sensor: &Sensor) -> (r: Result<Sensor, String>)
        ensures
            r matches Ok(made) && made@.id == 67890 && made@.sensor_type == sensor@.sensor_type,
    {
        Ok(Sensor::new(MockDatabase::SENSOR_ID, String::from_str(sensor.get_sensor_type())))
    }

    fn get_sensors(&self) -> (r: Result<Vec<Sensor>, String>)
        ensures
            r matches Ok(v) && known_sensors(v@),
    {
        Ok(MockDatabase::sensors())
    }

    fn get_sensor(&self, sensor_id: i64) -> (r: Result<Sensor, String>)
        ensures
            r matches Ok(sensor) && sensor@.id == sensor_id && sensor@.sensor_type
                == "sensor_type"@,
    {
        Ok(Sensor::new(sensor_id, String::from_str("sensor_type")))
    }

    fn update_sensor(&self, sensor_id: i64, updated_sensor: &Sensor) -> (r: Result<
        Sensor,
        String,
    >)
        ensures
            r matches Ok(sensor) && sensor@ == updated_sensor@.filled_from(
                crate::models::sensor_model::SensorView {
                    id: sensor_id as int,
                    sensor_type: "sensor_type"@,
                },
            ),
    {
        let mut sensor = Sensor::empty();
        sensor.fill_from(updated_sensor);
        sensor.fill_from(&Sensor::new(sensor_id, String::from_str(MockDatabase::SENSOR_TYPE)));
        Ok(sensor)
    }

    fn delete_sensor(&self, _sensor_id: i64) -> (r: Result<(), String>)
        ensures
            r is Ok,
    {
        Ok(())
    }

    fn insert_session(&self, session: &Session) -> (r: Result<Session, String>)
        ensures
            r matches Ok(made) && made@.id == 12345 && made@.username == session@.username,
    {
        Ok(Session::new(MockDatabase::SESSION_ID, String::from_str(session.get_username())))
    }

    fn get_session(&self, session_id: i64) -> (r: Result<Session, String>)
        ensures
            r matches Ok(session) && session@.id == session_id && session@.username
                == "username"@,
    {
        Ok(Session::new(session_id, String::from_str(MockDatabase::USERNAME)))
    }

    fn get_user_sessions(&self, username: &str) -> (r: Result<Vec<Session>, String>)
        ensures
            r matches Ok(v) && v@.len() == 4 && forall|i: int|
                0 <= i < 4 ==> (#[trigger] v@[i])@.id == i + 1 && v@[i]@.username == username@,
    {
        let known = MockDatabase::sessions();
        let mut v: Vec<Session> = Vec::new();
        let mut i: usize = 0;
        while i < known.len()
            invariant
                i <= known@.len() == 4,
                v@.len() == i,
                known_sessions(known@),
                forall|k: int|
                    0 <= k < i ==> (#[trigger] v@[k])@.id == k + 1 && v@[k]@.username
                        == username@,
            decreases known.len() - i,
        {
            v.push(Session::new(*known[i].get_id(), String::from_str(username)));
            i += 1;
        }
        Ok(v)
    }

    fn get_all_sessions(&self) -> (r: Result<Vec<Session>, String>)
        ensures
            r matches Ok(v) && known_sessions(v@),
    {
        Ok(MockDatabase::sessions())
    }

    fn update_session(&self, session_id: i64, updated_session: &Session) -> (r: Result<
        Session,
        String,
    >)
        ensures
            r matches Ok(session) && session@ == updated_session@.filled_from(
                crate::models::session_model::SessionView {
                    id: session_id as int,
                    username: "password"@,
                },
            ),
    {
        let mut session = Session::empty();
        session.fill_from(updated_session);
        session.fill_from(&Session::new(session_id, String::from_str(MockDatabase::PASSWORD)));
        Ok(session)
    }

    fn delete_session(&self, _session_id: i64) -> (r: Result<(), String>)
        ensures
            r is Ok,
    {
        Ok(())
    }

    fn insert_session_sensor(&self, session_sensor: &SessionSensor) -> (r: Result<
        SessionSensor,
        String,
    >)
        ensures
            r matches Ok(made) && made@.id == 1 && made@.session_id == session_sensor@.session_id
                && made@.sensor_id == session_sensor@.sensor_id,
    {
        Ok(
            SessionSensor::new(
                1,
                *session_sensor.get_session_id(),
                *session_sensor.get_sensor_id(),
            ),
        )
    }

    fn get_sessions_sensors(&self) -> (r: Result<Vec<SessionSensor>, String>)
        ensures
            r matches Ok(v) && known_links(v@),
    {
        Ok(MockDatabase::sessions_sensors())
    }

    fn get_session_sensors(&self, session_id: i64) -> (r: Result<Vec<SessionSensor>, String>)
        ensures
            r matches Ok(v) && v@.len() == 4 && forall|i: int|
                0 <= i < 4 ==> (#[trigger] v@[i])@.id == i + 1 && v@[i]@.session_id
                    == session_id && v@[i]@.sensor_id == i + 1,
    {
        let known = MockDatabase::sessions_sensors();
        let mut v: Vec<SessionSensor> = Vec::new();
        let mut i: usize = 0;
        while i < known.len()
            invariant
                i <= known@.len() == 4,
                v@.len() == i,
                known_links(known@),
                forall|k: int|
                    0 <= k < i ==> (#[trigger] v@[k])@.id == k + 1 && v@[k]@.session_id
                        == session_id && v@[k]@.sensor_id == k + 1,
            decreases known.len() - i,
        {
            v.push(SessionSensor::new(*known[i].get_id(), session_id, *known[i].get_sensor_id()));
            i += 1;
        }
        Ok(v)
    }

    /// The link of this identifier, in the session and with the sensor of the
    /// next two numbers; no link where those numbers do not fit 64 bits.
    fn get_session_sensor(&self, session_sensor_id: i64) -> (r: Result<SessionSensor, String>)
        ensures
            match r {
                Ok(link) => link@.id == session_sensor_id && link@.session_id == session_sensor_id
                    + 1 && link@.sensor_id == session_sensor_id + 2,
                Err(_) => session_sensor_id + 2 > i64::MAX,
            },
    {
        if session_sensor_id > i64::MAX - 2 {
            Err(String::from_str("identifier out of range"))
        } else {
            Ok(
                SessionSensor::new(
                    session_sensor_id,
                    session_sensor_id + 1,
                    session_sensor_id + 2,
                ),
            )
        }
    }

    fn update_session_sensor(
        &self,
        session_sensor_id: i64,
        updated_session_sensor: &SessionSensor,
    ) -> (r: Result<SessionSensor, String>)
        ensures
            r matches Ok(link) && link@ == updated_session_sensor@.filled_from(
                crate::models::session_sensor_model::SessionSensorView {
                    id: session_sensor_id as int,
                    session_id: 12345,
                    sensor_id: 67890,
                },
            ),
    {
        let mut session_sensor = SessionSensor::empty();
        session_sensor.fill_from(updated_session_sensor);
        session_sensor.fill_from(
            &SessionSensor::new(
                session_sensor_id,
                MockDatabase::SESSION_ID,
                MockDatabase::SENSOR_ID,
            ),
        );
        Ok(session_sensor)
    }

    fn delete_session_sensor(&self, _session_sensor_id: i64) -> (r: Result<(), String>)
        ensures
            r is Ok,
    {
        Ok(())
    }

    fn insert_session_sensor_data(&self, session_sensor_data: &SessionSensorData) -> (r: Result<
        SessionSensorData,
        String,
    >)
        ensures
            r matches Ok(made) && made@.id == Some(0int) && made@.datetime
                == session_sensor_data@.datetime && made@.data_blob
                == session_sensor_data@.data_blob,
    {
        Ok(
            SessionSensorData::new(
                Some(0),
                String::from_str(session_sensor_data.get_datetime()),
                session_sensor_data.get_blob().clone(),
            ),
        )
    }

    fn batch_session_sensor_data(&self, data_blobs: &Vec<SessionSensorData>) -> (r: Result<
        Vec<SessionSensorData>,
        String,
    >)
        ensures
            r matches Ok(v) && v@.len() == data_blobs@.len() && forall|i: int|
                0 <= i < v@.len() ==> (#[trigger] v@[i])@.id == Some(0int) && v@[i]@.datetime
                    == data_blobs@[i]@.datetime && v@[i]@.data_blob == data_blobs@[i]@.data_blob,
    {
        let mut v: Vec<SessionSensorData> = Vec::new();
        let mut i: usize = 0;
        while i < data_blobs.len()
            invariant
                i <= data_blobs@.len(),
                v@.len() == i,
                forall|k: int|
                    0 <= k < i ==> (#[trigger] v@[k])@.id == Some(0int) && v@[k]@.datetime
                        == data_blobs@[k]@.datetime && v@[k]@.data_blob
                        == data_blobs@[k]@.data_blob,
            decreases data_blobs.len() - i,
        {
            v.push(
                SessionSensorData::new(
                    Some(0),
                    String::from_str(data_blobs[i].get_datetime()),
                    data_blobs[i].get_blob().clone(),
                ),
            );
            i += 1;
        }
        Ok(v)
    }

    fn get_sessions_sensors_data(&self) -> (r: Result<Vec<SessionSensorData>, String>)
        ensures
            r matches Ok(v) && known_readings(v@),
    {
        Ok(MockDatabase::sessions_sensors_data())
    }

    fn get_sessions_sensor_data(&self, _session_id: i64) -> (r: Result<
        Vec<SessionSensorData>,
        String,
    >)
        ensures
            r matches Ok(v) && known_readings(v@),
    {
        Ok(MockDatabase::sessions_sensors_data())
    }

    fn get_session_sensor_data(&self, session_sensor_id: i64) -> (r: Result<
        Vec<SessionSensorData>,
        String,
    >)
        ensures
            r matches Ok(v) && v@.len() == 4 && forall|i: int|
                0 <= i < 4 ==> (#[trigger] v@[i])@.id == Some(session_sensor_id as int)
                    && v@[i]@.data_blob == JsonView::Object(Seq::empty()),
            r matches Ok(v) && v@[0]@.datetime == "datetime_1"@ && v@[1]@.datetime
                == "datetime_2"@ && v@[2]@.datetime == "datetime_3"@ && v@[3]@.datetime
                == "datetime_4"@,
    {
        let known = MockDatabase::sessions_sensors_data();
        let mut v: Vec<SessionSensorData> = Vec::new();
        let mut i: usize = 0;
        while i < known.len()
            invariant
                i <= known@.len() == 4,
                v@.len() == i,
                known_readings(known@),
                forall|k: int|
                    0 <= k < i ==> (#[trigger] v@[k])@.id == Some(session_sensor_id as int)
                        && v@[k]@.data_blob == JsonView::Object(Seq::empty()) && v@[k]@.datetime
                        == known@[k]@.datetime,
            decreases known.len() - i,
        {
            v.push(
                SessionSensorData::new(
                    Some(session_sensor_id),
                    String::from_str(known[i].get_datetime()),
                    known[i].get_blob().clone(),
                ),
            );
            i += 1;
        }
        Ok(v)
    }

    fn get_session_sensor_datapoint(&self, session_id: i64, datetime: &str) -> (r: Result<
        SessionSensorData,
        String,
    >)
        ensures
            r matches Ok(reading) && reading@.id == Some(session_id as int) && reading@.datetime
                == datetime@ && reading@.data_blob == JsonView::Object(Seq::empty()),
    {
        Ok(
            SessionSensorData::new(
                Some(session_id),
                String::from_str(datetime),
                MockDatabase::empty_object(),
            ),
        )
    }

    fn update_session_sensor_datapoint(
        &self,
        session_id: i64,
        datetime: &str,
        updated_session_sensor_datapoint: &SessionSensorData,
    ) -> (r: Result<SessionSensorData, String>)
        ensures
            r matches Ok(reading) && reading@ == updated_session_sensor_datapoint@.filled_from(
                crate::models::session_sensor_data_model::SessionSensorDataView {
                    id: Some(session_id as int),
                    datetime: datetime@,
                    data_blob: JsonView::Object(Seq::empty()),
                },
            ),
    {
        let mut reading = SessionSensorData::empty();
        reading.fill_from(updated_session_sensor_datapoint);
        reading.fill_from(
            &SessionSensorData::new(
                Some(session_id),
                String::from_str(datetime),
                MockDatabase::empty_object(),
            ),
        );
        Ok(reading)
    }

    fn delete_session_sensor_datapoint(&self, _session_id: i64, _datetime: &str) -> (r: Result<
        (),
        String,
    >)
        ensures
            r is Ok,
    {
        Ok(())
    }
}

/// With this store, a `POST` to the users route whose body describes a user
/// is answered with `201 Created` and the JSON text that holds the name of
/// that user alone.
pub proof fn lemma_mock_creates_posted_user(
    database: &MockDatabase,
    request: RequestView,
    reply: ReplyView,
)
    requires
        request.path.0 == PathKind::User,
        request.method is Post,
        request.body matches Some(json) && UserView::of_json(json) is Some,
        inserts(database, request, reply),
    ensures
        reply matches ReplyView::Response(r) && r.is(
            HttpStatus::Created,
            HeaderKind::Json,
            trim_end_nul(
                "{\"username\":\""@ + UserView::of_json(request.body->Some_0)->Some_0.username
                    + "\"}"@,
            ),
        ),
{
    lemma_posted_user_is_created(database, request, reply);
}

} // verus!
