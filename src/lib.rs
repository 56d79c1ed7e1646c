//! A chat bot's administration core: a whitelist of administrators, a table
//! of canned replies keyed by username, and the interpreter of the commands
//! that maintain them.
pub mod auth_store;
pub mod bot;
pub mod command;
pub mod laws;
pub mod response_table;
pub mod text;
