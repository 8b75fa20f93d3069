//! SQL query generation for a time-bucketed server monitoring station.

pub mod decimal;
pub mod generate_sql;
pub mod generate_leveled_sql;
pub mod status;
pub mod responses;
pub mod sql_laws;
