//! Verified core of a PostgreSQL logical-decoding output plugin.

pub mod types;
pub mod change;
pub mod text;
pub mod heap;
pub mod tuple;
pub mod plugin;
