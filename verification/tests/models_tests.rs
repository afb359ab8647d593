use tcp_server::json::{JsonMember, JsonValue};
use tcp_server::models::{BaseModel, Sensor, Session, SessionSensor, SessionSensorData, User};

fn n(text: &str) -> JsonValue {
    JsonValue::Number(text.to_string())
}

fn s(text: &str) -> JsonValue {
    JsonValue::String(text.to_string())
}

fn object(members: Vec<(&str, JsonValue)>) -> JsonValue {
    JsonValue::Object(
        members
            .into_iter()
            .map(|(name, value)| JsonMember { name: name.to_string(), value })
            .collect(),
    )
}

fn user(name: &str, hash: &str) -> User {
    User::new(name.to_string(), hash.to_string())
}

#[test]
fn user_basics() {
    let u = user("bob", "h");
    assert_eq!(u.get_username(), "bob");
    assert_eq!(u.get_password_hash(), "h");
    assert!(u.is_valid());
    assert!(!User::empty().is_valid());
    assert!(!user("bob", "").is_valid());
    assert!(!user("", "h").is_valid());
    assert_eq!(User::empty(), user("", ""));
    assert_eq!(User::default(), user("", ""));
    assert_eq!(u.clone(), u);
    assert_eq!(User::public_json(&u), "{\"username\":\"bob\"}");
    assert_eq!(BaseModel::public_json(&u), "{\"username\":\"bob\"}");
    assert_eq!(user("a\"b", "secret").public_json(), "{\"username\":\"a\"b\"}");
    assert!(!user("bob", "secret-hash").public_json().contains("secret-hash"));
}

#[test]
fn user_fill_from() {
    let mut u = User::empty();
    u.fill_from(&user("a", "b"));
    assert_eq!(u, user("a", "b"));
    u.fill_from(&user("c", "d"));
    assert_eq!(u, user("a", "b"));
    let mut u = user("a", "");
    u.fill_from(&user("c", "d"));
    assert_eq!(u, user("a", "d"));
    let mut u = user("", "b");
    u.fill_from(&user("c", ""));
    assert_eq!(u, user("c", "b"));
}

#[test]
fn user_from_json() {
    let doc = object(vec![("username", s("bob")), ("password_hash", s("h"))]);
    assert_eq!(User::from_json(doc), Ok(user("bob", "h")));
    let doc = object(vec![("extra", n("1")), ("password_hash", s("h")), ("username", s("bob"))]);
    assert_eq!(User::from_json(doc), Ok(user("bob", "h")));
    let doc = JsonValue::Array(vec![s("bob"), s("h")]);
    assert_eq!(User::from_json(doc), Ok(user("bob", "h")));
    let refused = Err("failed to parse to user.Error creating user.".to_string());
    for doc in [
        object(vec![("username", s("bob"))]),
        object(vec![("password_hash", s("h"))]),
        object(vec![("username", n("1")), ("password_hash", s("h"))]),
        object(vec![("username", s("bob")), ("password_hash", JsonValue::Null)]),
        object(vec![]),
        JsonValue::Array(vec![s("bob")]),
        JsonValue::Array(vec![s("bob"), s("h"), s("x")]),
        JsonValue::Array(vec![s("bob"), n("1")]),
        JsonValue::Array(vec![]),
        JsonValue::Null,
        s("bob"),
        n("1"),
        JsonValue::Bool(true),
    ] {
        assert_eq!(User::from_json(doc.clone()), refused, "{doc:?}");
        assert_eq!(User::read_json(&doc), None);
    }
}

#[test]
fn model_names_and_messages() {
    assert_eq!(User::kind_name(), "user");
    assert_eq!(Sensor::kind_name(), "sensor");
    assert_eq!(Session::kind_name(), "session");
    assert_eq!(SessionSensor::kind_name(), "session sensor");
    assert_eq!(SessionSensorData::kind_name(), "session sensor data");
    assert_eq!(
        User::required_values(),
        " Requires values \"username\": string and \"password_hash\": string"
    );
    assert_eq!(Sensor::required_values(), " Requires value \"type\": string");
    assert_eq!(Session::required_values(), " Requires value \"username\": string");
    assert_eq!(
        SessionSensor::required_values(),
        " Requires values \"session_id\": string and \"sensor_id\": string"
    );
    assert_eq!(
        SessionSensorData::required_values(),
        " Requires values \"datetime\": string and \"data_blob\": string"
    );
    assert_eq!(User::create_error_msg(), "Error creating user.");
    assert_eq!(SessionSensor::create_error_msg(), "Error creating session sensor.");
    assert_eq!(Sensor::parse_error_msg(), "failed to parse to sensor.Error creating sensor.");
}

#[test]
fn sensor_basics() {
    let x = Sensor::new(5, "thermo".to_string());
    assert_eq!(*x.get_id(), 5);
    assert_eq!(x.get_sensor_type(), "thermo");
    assert!(x.is_valid());
    assert!(Sensor::new(0, "t".to_string()).is_valid());
    assert!(!Sensor::new(-1, "t".to_string()).is_valid());
    assert!(!Sensor::new(1, String::new()).is_valid());
    assert_eq!(Sensor::empty(), Sensor::new(-1, String::new()));
    assert_eq!(Sensor::default(), Sensor::new(0, String::new()));
    assert_eq!(Sensor::public_json(&x), "{\"id\":\"5\", \"type\":\"thermo\"}");
    assert_eq!(
        Sensor::new(i64::MIN, "t".to_string()).public_json(),
        "{\"id\":\"-9223372036854775808\", \"type\":\"t\"}"
    );
    let mut e = Sensor::empty();
    e.fill_from(&x);
    assert_eq!(e, x);
    let mut e = Sensor::new(0, String::new());
    e.fill_from(&x);
    assert_eq!(e, Sensor::new(0, "thermo".to_string()));
    let mut e = Sensor::new(-1, "own".to_string());
    e.fill_from(&x);
    assert_eq!(e, Sensor::new(5, "own".to_string()));
}

#[test]
fn sensor_from_json() {
    assert_eq!(
        Sensor::from_json(object(vec![("type", s("t"))])),
        Ok(Sensor::new(0, "t".to_string()))
    );
    assert_eq!(
        Sensor::from_json(object(vec![("id", n("12")), ("type", s("t"))])),
        Ok(Sensor::new(12, "t".to_string()))
    );
    assert_eq!(
        Sensor::from_json(object(vec![("id", n("-12")), ("type", s("t")), ("sensor_type", s("u"))])),
        Ok(Sensor::new(-12, "t".to_string()))
    );
    assert_eq!(
        Sensor::from_json(JsonValue::Array(vec![n("3"), s("t")])),
        Ok(Sensor::new(3, "t".to_string()))
    );
    let refused = Err("failed to parse to sensor.Error creating sensor.".to_string());
    for doc in [
        object(vec![("id", n("12"))]),
        object(vec![("sensor_type", s("t"))]),
        object(vec![("id", n("1.5")), ("type", s("t"))]),
        object(vec![("id", s("12")), ("type", s("t"))]),
        object(vec![("id", JsonValue::Null), ("type", s("t"))]),
        object(vec![("id", n("9223372036854775808")), ("type", s("t"))]),
        JsonValue::Array(vec![s("t")]),
        JsonValue::Array(vec![n("1")]),
        JsonValue::Array(vec![s("t"), n("1")]),
        JsonValue::Array(vec![n("1"), s("t"), s("t")]),
        JsonValue::Bool(false),
    ] {
        assert_eq!(Sensor::from_json(doc.clone()), refused, "{doc:?}");
    }
}

#[test]
fn session_basics_and_json() {
    let x = Session::new(9, "bob".to_string());
    assert_eq!(*x.get_id(), 9);
    assert_eq!(x.get_username(), "bob");
    assert!(x.is_valid());
    assert!(!Session::empty().is_valid());
    assert_eq!(Session::empty(), Session::new(-1, String::new()));
    assert_eq!(Session::default(), Session::new(0, String::new()));
    assert_eq!(Session::public_json(&x), "{\"session_id\":\"9\", \"username\":\"bob\"}");
    let mut e = Session::empty();
    e.fill_from(&x);
    assert_eq!(e, x);
    assert_eq!(
        Session::from_json(object(vec![("username", s("bob"))])),
        Ok(Session::new(0, "bob".to_string()))
    );
    assert_eq!(
        Session::from_json(object(vec![("id", n("4")), ("username", s("bob"))])),
        Ok(Session::new(4, "bob".to_string()))
    );
    assert_eq!(
        Session::from_json(JsonValue::Array(vec![n("4"), s("bob")])),
        Ok(Session::new(4, "bob".to_string()))
    );
    assert_eq!(
        Session::from_json(object(vec![("session_id", n("4"))])),
        Err("failed to parse to session.Error creating session.".to_string())
    );
}

#[test]
fn session_sensor_basics_and_json() {
    let x = SessionSensor::new(1, 2, 3);
    assert_eq!((*x.get_id(), *x.get_session_id(), *x.get_sensor_id()), (1, 2, 3));
    assert!(x.is_valid());
    assert!(SessionSensor::new(0, 0, 0).is_valid());
    assert!(!SessionSensor::new(0, -1, 0).is_valid());
    assert!(!SessionSensor::empty().is_valid());
    assert_eq!(SessionSensor::empty(), SessionSensor::new(-1, -1, -1));
    assert_eq!(SessionSensor::default(), SessionSensor::new(0, 0, 0));
    assert_eq!(
        SessionSensor::public_json(&x),
        "{\"id\":\"1\", \"session_id\":\"2\", \"sensor_id\":\"3\"}"
    );
    let mut e = SessionSensor::new(-1, 7, -1);
    e.fill_from(&x);
    assert_eq!(e, SessionSensor::new(1, 7, 3));
    assert_eq!(
        SessionSensor::from_json(object(vec![("session_id", n("2")), ("sensor_id", n("3"))])),
        Ok(SessionSensor::new(0, 2, 3))
    );
    assert_eq!(
        SessionSensor::from_json(object(vec![
            ("id", n("1")),
            ("session_id", n("2")),
            ("sensor_id", n("3"))
        ])),
        Ok(x.clone())
    );
    assert_eq!(SessionSensor::from_json(JsonValue::Array(vec![n("1"), n("2"), n("3")])), Ok(x));
    let refused =
        Err("failed to parse to session sensor.Error creating session sensor.".to_string());
    for doc in [
        object(vec![("session_id", n("2"))]),
        object(vec![("session_id", s("2")), ("sensor_id", n("3"))]),
        JsonValue::Array(vec![n("2"), n("3")]),
        JsonValue::Array(vec![n("1"), n("2"), n("3"), n("4")]),
    ] {
        assert_eq!(SessionSensor::from_json(doc.clone()), refused, "{doc:?}");
    }
}

#[test]
fn reading_basics() {
    let blob = object(vec![("v", n("1.5"))]);
    let x = SessionSensorData::new(Some(4), "2025-01-01".to_string(), blob.clone());
    assert_eq!(x.get_id(), &Some(4));
    assert_eq!(x.get_datetime(), "2025-01-01");
    assert_eq!(x.get_blob(), &blob);
    assert!(x.is_valid());
    assert!(!SessionSensorData::new(None, "t".to_string(), blob.clone()).is_valid());
    assert!(!SessionSensorData::new(Some(1), String::new(), blob.clone()).is_valid());
    assert!(!SessionSensorData::new(Some(1), "t".to_string(), JsonValue::Array(vec![])).is_valid());
    assert!(!SessionSensorData::empty().is_valid());
    assert_eq!(
        SessionSensorData::empty(),
        SessionSensorData::new(None, String::new(), JsonValue::Null)
    );
    assert_eq!(SessionSensorData::default(), SessionSensorData::empty());
    assert_eq!(
        SessionSensorData::public_json(&x),
        "{\"data_blob\":{\"v\":1.5},\"datetime\":\"2025-01-01\",\"id\":4}"
    );
    assert_eq!(
        SessionSensorData::empty().public_json(),
        "{\"data_blob\":null,\"datetime\":\"\",\"id\":null}"
    );
    let mut e = SessionSensorData::empty();
    e.fill_from(&x);
    assert_eq!(e, x);
    let mut e = SessionSensorData::new(Some(1), String::new(), JsonValue::Bool(false));
    e.fill_from(&x);
    assert_eq!(
        e,
        SessionSensorData::new(Some(1), "2025-01-01".to_string(), JsonValue::Bool(false))
    );
}

#[test]
fn reading_from_json() {
    let blob = object(vec![("v", n("1"))]);
    assert_eq!(
        SessionSensorData::from_json(object(vec![
            ("datetime", s("t")),
            ("data_blob", blob.clone())
        ])),
        Ok(SessionSensorData::new(None, "t".to_string(), blob.clone()))
    );
    assert_eq!(
        SessionSensorData::from_json(object(vec![
            ("id", JsonValue::Null),
            ("datetime", s("t")),
            ("data_blob", JsonValue::Null)
        ])),
        Ok(SessionSensorData::new(None, "t".to_string(), JsonValue::Null))
    );
    assert_eq!(
        SessionSensorData::from_json(object(vec![
            ("id", n("8")),
            ("datetime", s("t")),
            ("data_blob", s("raw"))
        ])),
        Ok(SessionSensorData::new(Some(8), "t".to_string(), s("raw")))
    );
    assert_eq!(
        SessionSensorData::from_json(JsonValue::Array(vec![n("8"), s("t"), blob.clone()])),
        Ok(SessionSensorData::new(Some(8), "t".to_string(), blob.clone()))
    );
    assert_eq!(
        SessionSensorData::from_json(JsonValue::Array(vec![JsonValue::Null, s("t"), n("1")])),
        Ok(SessionSensorData::new(None, "t".to_string(), n("1")))
    );
    let refused = Err(
        "failed to parse to session sensor data.Error creating session sensor data.".to_string(),
    );
    for doc in [
        object(vec![("datetime", s("t"))]),
        object(vec![("data_blob", blob.clone())]),
        object(vec![("id", s("8")), ("datetime", s("t")), ("data_blob", blob.clone())]),
        object(vec![("id", n("1.5")), ("datetime", s("t")), ("data_blob", blob.clone())]),
        object(vec![("datetime", n("1")), ("data_blob", blob.clone())]),
        JsonValue::Array(vec![s("t"), blob.clone()]),
        JsonValue::Array(vec![n("8"), s("t")]),
        JsonValue::Null,
    ] {
        assert_eq!(SessionSensorData::from_json(doc.clone()), refused, "{doc:?}");
    }
}
