//! The command layer: the shapes the user interface sends and receives,
//! and the decisions taken between a request and the calls it leads to
//! (connection planning, stream options, response mapping).

pub mod requests;
pub mod invoke;
pub mod convert;
pub mod connect;
pub mod discover;
pub mod schema;
