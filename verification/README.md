# grpcui

The back end of a desktop gRPC debugging tool: connecting to a service by
reflection or by proto files, calling unary and streaming methods through a
Go codec library, and keeping projects, environments, saved requests and
call history in SQLite.

## Layout

- `src/` is the library, verified with Verus. Public functions state in
  their `ensures` what they return, as far as the outside calls they make
  allow: what `serde_json` parses, which random bytes an id gets, and the
  parents `Path::parent` gives for paths outside the plain `/` form are
  left open. The public proof functions state the laws that hold across
  calls (request and folder round trips, metadata round trips, path
  de-duplication, frame encoding and decoding, query placeholders).
  - `text` — string helpers with exact specifications.
  - `error`, `ffi` — error types and texts, the codec-bridge handle table,
    the library search order, the checks on codec results.
  - `grpc` — metadata maps and headers, gRPC framing and status decoding,
    the transport configuration and connection plan, the client and stream
    state.
  - `storage` — records, identifiers, field-wise updates, project cloning
    and the history search query.
  - `commands` — what each user-interface command decides: connection
    plans, proto discovery, request conversions, invoke responses.
- `app/` is the program around the library: the command loop, the dynamic
  codec library, the `tonic` transport, SQLite access and the JSON shapes.
- `tests/` runs the library on concrete values.
