# mmtk_ghc

Heap-object layouts of the GHC runtime and the rules by which a garbage
collector finds the pointers inside closures, stack frames and threads,
written in Verus with their contracts proved.

- `src/types.rs`, `src/stg_info_table.rs`, `src/stg_closures.rs`: closure
  types, info tables (flags, small and large bitmaps, static reference
  tables) and closure layouts. Pointer fields hold addresses; payloads hold
  their words.
- `src/object_scanning.rs`, `src/scanning.rs`: the scanning rules. Each scan
  appends the edges it finds to a `CollectPointerVisitor`, and its contract
  gives that sequence exactly.
- `src/trace.rs`: tracing everything reachable from a root, each closure
  visited once.
- `src/util.rs`: address arithmetic.
- `app/lib.rs`: what needs raw memory or C (running C finalizers, the
  comparison with the runtime's C heap view).
