//! Persistent ingredient inventory: a single-table record store with an
//! insert-or-replace write path, a full listing and a delete that reports
//! missing names.

pub mod config;
pub mod database;
pub mod inventory;
pub mod menu;
pub mod quantity;
pub mod table;
pub mod timestamp;
