//! Verified core of a binding to the LevelDB storage engine.
//!
//! The engine itself is reached through its C interface, which only code
//! outside this library can call. What is decided around those calls is
//! decided here: which settings and bytes are handed to the engine, when a
//! path is refused, and what an answer of the engine means to the caller.

pub mod call;
pub mod database;
pub mod error;
pub mod handle;
pub mod laws;
pub mod marshal;
pub mod options;
pub mod reply;
pub mod text;

pub use database::Database;
pub use error::LevelDBError;
