# opensovd_cda

The rules of a diagnostic adapter that serves ECUs over SOVD, written in Rust and
proved with Verus.

- `src/config`: the configuration and its defaults, layers of settings, and the
  check of per-ECU communication parameters for keys that nothing knows.
- `src/runtimefiles`: the endpoints that update runtime files: routes, the vehicle
  lock, uploads, and the answer to each outcome.
- `src/update.rs`: reloading the configuration and the diagnostic databases.
- `src/uri_rewrite.rs`: percent-decoding and lower-casing of request URIs.
- `src/webserver.rs`, `src/trace.rs`: addresses, paths, and what is traced.
- `src/toml_tree.rs`, `src/string_map.rs`, `src/text.rs`: what the rest is stated over.
- `app`: the HTTP server, file access and serialisation around the library.
- `tests`: the library on concrete values.

The calls into `toml`, `figment`, `http` and `percent-encoding` are small wrappers.
Their contracts are not proved; each says what it claims of the function it calls.
