//! The codec bridge: its error type, its argument checks and the TLS
//! settings handed to it for reflection.

pub mod bridge;
pub mod error;
pub mod manager;
pub mod library;
