//! Between the messages of the catalog and the types of this library.

pub mod api;
pub mod from_api;
pub mod to_api;
pub mod types;
