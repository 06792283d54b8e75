# wasmtime_rb

The verified core of Wasmtime's Ruby bindings.

- `src/config.rs`: decoding the options hash of `Wasmtime::Engine.new` into
  engine settings, and applying them to a `wasmtime::Config`.
- `src/wasi.rs`: the WASI context builder and the building of a
  `wasi_common::WasiCtx` with `wasmtime-wasi`.
- `src/string_array.rs`: the limits of WASI's argument and environment arrays.
- `src/text.rs`, `src/error.rs`: string comparison and the errors raised in Ruby.
- `app/`: the Ruby glue (magnus): reading Ruby values, opening files,
  registering classes.
