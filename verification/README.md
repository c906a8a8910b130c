# zwasm_sdk

Safe bindings for the zwasm WebAssembly runtime, with their decision logic
verified by Verus.

- `src/` is the verified library. It holds the wrapper types (engine, store,
  module, instance, function, global, memory, table, WASI configuration, host
  import registry, runtime configuration) as the addresses of the native
  objects, never null, and decides everything the wrappers decide: which error
  a null result, a `false` or a trap becomes; where an export is found by name;
  which strings can be handed to C and their C string bytes; what a constructor
  has left to release; how a host call from the runtime is dispatched; and the
  `u32` length conversion with its message.
- `app/` declares the zwasm C API, performs the calls, owns the native objects
  and the host closures, and converts values; it calls `src/` for every
  decision. It needs the native zwasm library to link.
- `tests/` exercises the library on concrete values.
