//! Write database migrations as data and turn them into the SQL of a chosen
//! backend.

pub mod backend;
pub mod migration;
pub mod table;
pub mod text;
pub mod types;

pub use crate::migration::Migration;
pub use crate::table::Table;
