//! Local data: projects, environments, collections and call history, with
//! the rules that creating, updating and cloning them follow.

pub mod collections;
pub mod environments;
pub mod error;
pub mod history;
pub mod models;
pub mod projects;
