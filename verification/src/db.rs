//! The local database: the statements the daemon runs and how the rows it
//! reads become contacts and messages.
pub mod sql_calls;
