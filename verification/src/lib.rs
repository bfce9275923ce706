//! Core logic of a desktop gRPC debugging tool: connection planning, gRPC
//! framing, status and metadata handling, stream bookkeeping, error
//! taxonomy and the storage models, each stated and proved with Verus.

pub mod text;
pub mod error;
pub mod ffi;
pub mod grpc;
pub mod storage;
pub mod commands;
pub mod stream_manager;
pub mod settings;
