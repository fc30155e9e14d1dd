//! A stand-in for a SQLite driver: handles that accept every call of the real
//! driver's surface, touch no file and run no SQL, and answer each call with a
//! fixed value and the diagnostic line that announces it.

pub mod database;
pub mod hooks;
pub mod laws;
pub mod statement;
pub mod trace;

pub use crate::database::Database;
pub use crate::hooks::{better_sqlite3, set_error_constructor};
pub use crate::statement::{Statement, EMPTY_OBJECT};
pub use crate::trace::{Operation, Traced, TAG};
