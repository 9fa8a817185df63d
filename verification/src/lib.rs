//! An interactive list of named, completable items.

pub mod command;
pub mod item;
pub mod list;
pub mod session;
pub mod text;
