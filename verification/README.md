# wasm_modding

The host side of a WebAssembly modding runtime, with its logic verified by Verus.

- `src/` is the verified library: the `(status, length)` packing that crosses the
  wasm boundary (`result_with_length`), the text printed for a mod (`escape`),
  line trimming and decoding (`text`), the state and functions behind the `game`
  and `demo` imports (`modhandlers`, `modapi`), the hand-over status codes
  (`transfer`), the guest-side value layouts (`bindings`), the argument reading
  and expansion text of the `wasm_export` / `wasm_import` attribute macros
  (`wasm_interface`), and the random generators it draws from (`rng`).
- `app/` is the program around it: it loads a module with wasmer, reads and
  writes the mod's memory and the console, and turns compiler tokens into the
  library's and back.
- `tests/` runs the library on concrete values.
