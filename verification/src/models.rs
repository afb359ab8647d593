//! What the server keeps: users, sensors, sessions, and the readings that
//! sensors deliver in a session.

pub mod base_model;
pub mod sensor_model;
pub mod session_model;
pub mod session_sensor_data_model;
pub mod session_sensor_model;
pub mod user_model;

pub use self::base_model::BaseModel;
pub use self::sensor_model::Sensor;
pub use self::session_model::Session;
pub use self::session_sensor_data_model::SessionSensorData;
pub use self::session_sensor_model::SessionSensor;
pub use self::user_model::User;
