//! What the user interface is told about a running stream, and under
//! which event name.

use vstd::prelude::*;
use vstd::string::StringExecFns;
use crate::error::AppError;
use crate::grpc::metadata::StringMap;
use crate::grpc::streaming::StreamEvent;

verus! {

/// A stream event as the user interface receives it.
#[derive(Debug)]
pub enum FrontendStreamEvent {
    /// A message from the server.
    Message { data: serde_json::Value },
    /// The server ended the stream.
    End,
    /// The stream failed.
    Error { message: String },
    /// Metadata from the server.
    Metadata { metadata: StringMap },
}

/// The user-interface form of a stream event: the same content without
/// the stream id, which the event name carries.
pub fn frontend_event_of(event: StreamEvent) -> (r: FrontendStreamEvent)
    ensures
        match event {
            StreamEvent::Message { data, .. } => r == FrontendStreamEvent::Message { data },
            StreamEvent::Metadata { metadata, .. } => r == FrontendStreamEvent::Metadata { metadata },
            StreamEvent::Error { message, .. } => r == FrontendStreamEvent::Error { message },
            StreamEvent::End { .. } => r == FrontendStreamEvent::End,
        },
{
    match event {
        StreamEvent::Message { stream_id: _, data } => FrontendStreamEvent::Message { data },
        StreamEvent::Metadata { stream_id: _, metadata } => FrontendStreamEvent::Metadata { metadata },
        StreamEvent::Error { stream_id: _, message } => FrontendStreamEvent::Error { message },
        StreamEvent::End { stream_id: _ } => FrontendStreamEvent::End,
    }
}

/// The name of the events of a stream.
pub open spec fn event_name(stream_id: Seq<char>) -> Seq<char> {
    "grpc:stream:"@ + stream_id
}

/// The name under which the events of `stream_id` are emitted.
pub fn stream_event_name(stream_id: &str) -> (r: String)
    ensures
        r@ == event_name(stream_id@),
{
    String::from_str("grpc:stream:").concat(stream_id)
}

/// The error for a stream of the older event path that is not registered.
pub fn legacy_stream_not_found(stream_id: &str) -> (r: AppError)
    ensures
        r matches AppError::GrpcStreamFailed(m) && m@ == "Stream "@ + stream_id@ + " not found"@,
{
    AppError::GrpcStreamFailed(String::from_str("Stream ").concat(stream_id).concat(" not found"))
}

/// The error for a message the older event path could not pass on.
pub fn legacy_send_failed() -> (r: AppError)
    ensures
        r matches AppError::GrpcStreamFailed(m) && m@ == "Failed to send message to stream"@,
{
    AppError::GrpcStreamFailed(String::from_str("Failed to send message to stream"))
}

} // verus!
