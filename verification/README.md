# wasi-tls

Host-side logic of the `wasi:tls` interface, verified with Verus.

- `src/` is the verified library. `client` and `server` hold the state
  machines of TLS clients and servers (configuration, `finish`, handshake
  polling) with spec functions for every call and proved laws over any
  sequence of calls; `connection`, `certificate` and `identity` hold the
  other resources; `certificate` reads X.509 certificates through
  `x509-parser`, `server_name` checks server names through `rustls`.
- `app/` is the host glue: the TLS providers (`rustls`, `native-tls`), the
  context that selects them, adapters between WASI streams and tokio, and
  the host methods that look resources up in wasmtime's resource table and
  carry out what the library decides.
- `tests/` runs the library on concrete resources and certificates.
