//! The store behind the server.

pub mod database;
pub mod mock_database;

pub use self::database::Database;
pub use self::mock_database::MockDatabase;
