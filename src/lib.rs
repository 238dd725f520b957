//! A synchronous, cursor-based database client core: statement classification,
//! the implicit-transaction policy, value marshalling, and the connection and
//! cursor state machines that drive an asynchronous SQL engine.

pub mod connection;
pub mod cursor;
pub mod error;
pub mod policy;
pub mod sql;
pub mod value;


pub use connection::Connection;
pub use cursor::Cursor;
pub use error::Error;
