# telividb

The verified core of the telividb vector and graph database: the parts of
the client SDK, the telemetry vocabulary and the tensor runtime that decide
things, written in Verus with their contracts proved.

- `src/telemetry` — redaction (resource tokens, vault labels, vector
  shapes), the residency registry and its accounting laws, and the span-field
  vocabulary.
- `src/compute` — device kinds and selection (with the operator's override),
  backends and their initialisation outcomes, memory reports, the staging of
  a device corpus and its allocation outcomes, a model's tensors by name, the
  shape checks before a batch or an input reaches the device, score shapes,
  the link order of the runtime's libraries, and the runtime's errors.
- `src/sdk` — resource names and their round trips, pagination that refuses
  a repeated page token, the batch-create request and the ids it answers,
  error classification of gRPC statuses, collection declarations, tenancy and
  system types.
- `src/rpc` — the gRPC method paths of the wire services and how a request
  path routes to a method.
- `src/text` — decimal and hexadecimal rendering used by the messages above.
- `app/` — process-level wiring: the shared residency registry with
  drop-released registrations, the `TELIVIDB_DEVICE` override read from the
  environment, connecting to a server and driving listings and batch writes,
  error and shape types carrying `Display`, `thiserror` and `serde` derives,
  and the linker directives for the runtime's libraries.
