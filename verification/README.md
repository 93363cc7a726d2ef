# typed_error

Typed, transport-aware application errors, verified with Verus.

- `src/` is the verified library: error kinds, error codes, detail values,
  a deterministic details map, retry hints, the application error and its
  transport-safe response, and the mappings to HTTP status codes and gRPC
  statuses. The verified functions carry contracts over mathematical views
  (`Seq`, `Map`, plain values); the laws of the library are proof functions.
  The few items that call outside code (`http`, `tonic`, std `Duration` and
  the boxed source error) are marked and documented; those on the source
  error state nothing of it beyond its presence.
- `app/` holds what the verified library cannot: serde representations of
  its types, the Axum response adapter, and the conversions of floating-point
  numbers into detail values.
- `tests/` exercises the library with the real `http` and `tonic` crates.
