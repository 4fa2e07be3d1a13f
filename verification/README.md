# wrest: TLS configuration on WinHTTP

Protocol-version masks and client certificates for an HTTP client on Windows,
verified with [Verus](https://github.com/verus-lang/verus).

- `src/tls.rs`: `Version`, `protocol_mask`, `StoreLocation`, `Identity`, and
  the laws of masks.
- `src/identity_laws.rs`: identities and the references they stand for.
- `src/error.rs`, `src/format.rs`: the library's errors, and the formatter that
  debug texts are written to.
- `src/abi/crypt32.rs`: crypt32 calls, their answers, and what each does to the
  references that a caller owns.
- `src/abi/cert.rs`, `src/abi/wide.rs`, `src/abi/constants.rs`: the decisions of
  single calls, wide strings, and the constants that are handed over.
- `src/abi/operation.rs`: operations of several calls, and why every run of one
  accounts for its references.
- `src/abi/lookup.rs`, `src/abi/deletion.rs`, `src/abi/listing.rs`,
  `src/abi/listing_laws.rs`: the operations, and what they come to.
- `app/`: makes the calls, and owns the contexts they return.

The library makes no system call.  An operation names the call it is waiting
for (`pending`) and is resumed with its answer (`resume`); `app/crypt32.rs` runs
that loop.
