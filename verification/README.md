# amd_smi_wrapper

A wrapper for the AMD System Management Interface library (`libamd_smi.so`,
ROCm), whose core is formally verified.

## Layout

- `src/` — the verified library.
  - `status.rs`: status codes (`AmdStatus`) and initialization flags.
  - `error.rs`: `AmdError`, `AmdInitError`, their texts, and the decoding of
    the library's description of a status (`message_for_status`).
  - `lib.rs`: `AmdSmi`, the session that owns the loaded library: status
    checks, initialization, and the sizing of handle buffers.
  - `handles.rs`: socket and processor handles, built from the buffers that
    the library fills; fan speed ratio and UUID decoding.
  - `processes.rs`: the rounds of calls that read the process list of a GPU,
    as a step function from the outcome of one call to the next call.
  - `text.rs`: C strings, UTF-8 decoding and decimal rendering.
- `app/` — the calls into the shared library (loaded with `libloading`), the
  `AmdInterface`, `SocketHandle` and `ProcessorHandle` traits with their
  `mockall` mocks, the metric types, and error types that implement
  `std::error::Error` (with `thiserror`).
- `tests/` — tests of the verified library on concrete values.

Every call into `libamd_smi.so` is made in `app/`, which hands the status,
counts and buffers it got back to the functions of `src/`; they decide the
result, and their contracts state it.
