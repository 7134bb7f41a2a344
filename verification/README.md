# ntresult

`NTSTATUS`-based error handling for Windows kernel-mode code, verified with
Verus.

- `src/layout.rs` — the bit layout of a status (severity, customer flag,
  facility, code) and the proofs that the fields tile the word.
- `src/severity.rs` — the `Severity` class and its order.
- `src/error.rs` — `Error`, a transparent wrapper over an `NTSTATUS`, with its
  accessors and its text rendering.
- `src/render.rs` — `0x` plus eight uppercase hexadecimal digits.
- `src/convert.rs` — `IntoResult`, `IntoError`, `NtStatus`, `NtStatusOrSuccess`,
  `NtStatusResult` and `From<Error> for NTSTATUS`.
- `src/common_error/` — `From` conversions of `TryFromIntError` and
  `TryReserveError`.
- `src/status.rs` — `Status`, a status returned as an expected outcome, with
  the same accessors as `Error`.
- `src/codes.rs` — the `windows_sys` status constants that the library
  produces.
- `app/lib.rs` — the shorthand macros, `Display`/`Debug`/`std::error::Error`
  on copies of `Error` and `Status`, and the `AddrParseError` conversion.
