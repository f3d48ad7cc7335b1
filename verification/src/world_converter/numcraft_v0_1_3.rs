//! The game's data model as of format version 0.1.3.

pub mod chunk;
pub mod constants;
pub mod inventory;
pub mod save_manager;
