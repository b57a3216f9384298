# cartesi_machine_wasm

The host-independent core of the WebAssembly bindings for the Cartesi
Machine RISC-V emulator, written in Verus.

- `src/` is the verified library: break-reason and register codes
  (`break_reason.rs`, `register.rs`), the human-readable name of a break
  reason with its decimal fallback (`decimal.rs`), the messages the bindings
  report when a step of driving the machine fails (`failure.rs`), and the
  lower-case hex text of a root hash (`root_hash.rs`, through `hex::encode`).
- `app/` is the wasm-bindgen layer: the `WasmMachine` handle that calls the
  emulator, JSON configuration parsing, and the JavaScript error values.
- `tests/` runs the library on concrete values.
