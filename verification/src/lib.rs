//! A relational adapter for a paginated REST collection API: JSON records
//! become typed rows, equality filters become query parameters, and row
//! mutations become write requests.

pub mod codec;
pub mod config;
pub mod encode;
pub mod json;
pub mod modify;
pub mod pushdown;
pub mod row;
pub mod scan;
pub mod schema;
pub mod urls;
