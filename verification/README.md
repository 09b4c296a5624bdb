# nano_runtime

The verified core of a multi-tenant JavaScript edge runtime: the virtual
file system each isolate sees, the sliver archive format that carries an
app's heap and files, and the host-side logic behind the web and Node APIs
that scripts call (timers, fetch, URL, encodings, zlib, `node:fs`,
`node:crypto` and WebCrypto).

Every function under `src/` carries a Verus contract and is proved against
it. Calls into outside crates (hashes, ciphers, curves, compression, tar,
JSON, URL parsing, randomness) go through small trusted wrappers whose
contracts name the crate's result.

## Layout

- `src/text.rs` — string helpers shared by the rest.
- `src/vfs/` — VFS paths and errors, the path validator and quotas, the
  in-memory backend, per-isolate namespaces, and the filesystem front end.
- `src/sliver/` — the sliver format: metadata JSON, tar packing and
  unpacking, validation, and the directory packager's decisions.
- `src/runtime/` — timers, stream resources, fetch, request bodies, response
  status and header properties, URL and query parsing, text and buffer
  conversions, zlib, `node:fs` and the host environment.
- `src/crypto/` — hash, MAC and key-derivation hooks, AES modes, ECDSA and ECDH on
  P-256 and P-384, Ed25519, WebCrypto keys and `crypto.subtle`.
- `src/engine/` — snapshot blobs and platform errors.
- `src/wasm.rs` — WebAssembly module header checks.
- `tests/` — tests against the compiled library.
- `app/` — the unverified host side: disk and network access, process-wide
  state and incremental zlib codecs.
