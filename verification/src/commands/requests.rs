//! Requests and responses exchanged with the user interface.

use vstd::prelude::*;
use crate::grpc::metadata::StringMap;
use crate::storage::models::TLSConfig;

verus! {

/// A request to load service descriptions, by reflection or from proto
/// files.
#[derive(Debug)]
pub struct ConnectRequest {
    pub address: String,
    pub tls: Option<TLSConfig>,
    pub insecure: bool,
    pub proto_file: Option<String>,
    pub proto_files: Option<Vec<String>>,
    pub import_paths: Option<Vec<String>>,
    pub use_reflection: bool,
}

/// The outcome of a connect request.
#[derive(Debug)]
pub struct ConnectResponse {
    pub success: bool,
    pub error: Option<String>,
}

/// A request to list the proto files under a directory.
#[derive(Debug)]
pub struct DiscoverProtoFilesRequest {
    pub root_dir: String,
}

/// The proto files found under a directory, as absolute paths and as paths
/// relative to the directory.
#[derive(Debug)]
pub struct DiscoverProtoFilesResponse {
    pub root_dir: String,
    pub absolute_paths: Vec<String>,
    pub relative_paths: Vec<String>,
}

/// The outcome of a disconnect request.
#[derive(Debug)]
pub struct DisconnectResponse {
    pub success: bool,
    pub error: Option<String>,
}

/// A request for the input schema of a method.
#[derive(Debug)]
pub struct GetMethodInputSchemaRequest {
    pub service: String,
    pub method: String,
}

/// A unary call to make.
#[derive(Debug)]
pub struct InvokeRequest {
    pub method: String,
    pub body: String,
    pub metadata: Option<StringMap>,
    /// Server address (e.g. "localhost:50051").
    pub address: String,
    /// HTTP/2 authority / TLS server name override.
    pub authority: Option<String>,
    pub tls: Option<TLSConfig>,
    pub timeout_secs: Option<u64>,
}

/// A streaming call to start.
#[derive(Debug)]
pub struct StreamInvokeRequest {
    pub method: String,
    pub body: String,
    pub metadata: Option<StringMap>,
    /// "server", "client" or "bidi".
    pub stream_type: String,
    pub address: String,
    pub authority: Option<String>,
    pub tls: Option<TLSConfig>,
    pub timeout_secs: Option<u64>,
}

} // verus!
