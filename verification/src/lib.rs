//! Personal finance records: monthly figures grouped by year, kept as a
//! history that can be merged into and read back.

pub mod codec;
pub mod data;
pub mod error;
pub mod record;
pub mod upsert;
