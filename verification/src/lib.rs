//! A personal brag list: short achievement notes kept in order, with the rules
//! for adding, listing, editing and removing them.

pub mod command;
pub mod config;
pub mod entry;
pub mod error;
pub mod laws;
pub mod record;
pub mod text;
pub mod time;
