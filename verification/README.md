# sharky_env

A stack-based virtual machine ("Sharky") with a shared heap of frames, a
string pool, a C-compatible buffer type and a bytecode header reader, written
in Verus.

## Layout

- `src/` — the verified library.
  - `sharky_data_types.rs`, `instructions.rs`, `sharky_instruction_set.rs`:
    values, operands and the instruction sets.
  - `value_ops.rs`: arithmetic, bitwise, comparison and conversion of values,
    with laws such as commutativity and `a + b - b == a`.
  - `sharky_memory.rs`: stacks, the memory of a machine, and the heap, whose
    frames are kept in a `slab::Slab` (`slab_frames.rs` states what the heap
    relies on from it).
  - `vm_semantics.rs` / `vm.rs`: the machine addressed through `OpParameter`;
    `SharkyVM::interpret` is proved to perform exactly one step of `step`.
  - `sharky_vm_semantics.rs` / `sharky_vm.rs`: the machine addressed through
    `SharkyParameter`, likewise against `plain_step`.
  - `vm_laws.rs`: properties of every step of either machine.
  - `sharky_app.rs`: global frames and the heap collector.
  - `value_text.rs`: how values are printed (all but reals and byte strings).
  - `sharky_string.rs`, `ffi_collections.rs`, `bytecode_reader.rs`.
- `tests/` — tests of the library on concrete programs and values.
- `app/` — the program around the library: threads that run machines,
  native libraries through `libloading`, floating-point operations and printing.
