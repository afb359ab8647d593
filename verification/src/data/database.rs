//! What the server asks of a store. Every operation answers with what was
//! found or made, or with a text that says why not.

use crate::models::{Sensor, Session, SessionSensor, SessionSensorData, User};
use vstd::prelude::*;

verus! {

/// A store of users, sensors, sessions and readings.
pub trait Database {
    fn temp_session_id_solution(&self);

    /// The user that the session cookie `session_id` belongs to.
    fn get_session_user(&self, session_id: &str) -> Result<User, String>;

    /// Whether the user may see and change everything.
    fn is_admin(&self, user: &User) -> bool;

    /// Opens a session for the user, and answers with its cookie.
    fn login(&self, user: &User) -> Result<String, String>;

    /// Ends the session of the cookie `session_id`.
    fn logout(&self, session_id: &str) -> Result<(), String>;

    /// Replaces the session of the cookie `old_session` by a new one.
    fn renew_session(&self, old_session: &str) -> Result<String, String>;

    fn insert_user(&self, user: &User) -> Result<User, String>;

    fn get_users(&self) -> Result<Vec<User>, String>;

    fn get_user(&self, username: &str) -> Result<User, String>;

    fn update_user(&self, username: &str, updated_user: &User) -> Result<User, String>;

    fn delete_user(&self, username: &str) -> Result<(), String>;

    fn insert_sensor(&self, sensor: &Sensor) -> Result<Sensor, String>;

    fn get_sensors(&self) -> Result<Vec<Sensor>, String>;

    fn get_sensor(&self, sensor_id: i64) -> Result<Sensor, String>;

    fn update_sensor(&self, sensor_id: i64, updated_sensor: &Sensor) -> Result<Sensor, String>;

    fn delete_sensor(&self, sensor_id: i64) -> Result<(), String>;

    fn insert_session(&self, session: &Session) -> Result<Session, String>;

    fn get_session(&self, session_id: i64) -> Result<Session, String>;

    fn get_user_sessions(&self, username: &str) -> Result<Vec<Session>, String>;

    fn get_all_sessions(&self) -> Result<Vec<Session>, String>;

    fn update_session(&self, session_id: i64, updated_session: &Session) -> Result<
        Session,
        String,
    >;

    fn delete_session(&self, session_id: i64) -> Result<(), String>;

    fn insert_session_sensor(&self, session_sensor: &SessionSensor) -> Result<
        SessionSensor,
        String,
    >;

    fn get_sessions_sensors(&self) -> Result<Vec<SessionSensor>, String>;

    fn get_session_sensors(&self, session_id: i64) -> Result<Vec<SessionSensor>, String>;

    fn get_session_sensor(&self, session_sensor_id: i64) -> Result<SessionSensor, String>;

    fn update_session_sensor(
        &self,
        session_sensor_id: i64,
        updated_session_sensor: &SessionSensor,
    ) -> Result<SessionSensor, String>;

    fn delete_session_sensor(&self, session_sensor_id: i64) -> Result<(), String>;

    fn insert_session_sensor_data(&self, session_sensor_data: &SessionSensorData) -> Result<
        SessionSensorData,
        String,
    >;

    fn batch_session_sensor_data(&self, data_blobs: &Vec<SessionSensorData>) -> Result<
        Vec<SessionSensorData>,
        String,
    >;

    fn get_sessions_sensors_data(&self) -> Result<Vec<SessionSensorData>, String>;

    fn get_sessions_sensor_data(&self, session_id: i64) -> Result<Vec<SessionSensorData>, String>;

    fn get_session_sensor_data(&self, session_sensor_id: i64) -> Result<
        Vec<SessionSensorData>,
        String,
    >;

    fn get_session_sensor_datapoint(&self, session_id: i64, datetime: &str) -> Result<
        SessionSensorData,
        String,
    >;

    fn update_session_sensor_datapoint(
        &self,
        session_id: i64,
        datetime: &str,
        updated_session_sensor_datapoint: &SessionSensorData,
    ) -> Result<SessionSensorData, String>;

    fn delete_session_sensor_datapoint(&self, session_id: i64, datetime: &str) -> Result<
        (),
        String,
    >;
}

} // verus!
