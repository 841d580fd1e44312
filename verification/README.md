# dcore

The logic of a small RISC-V (Sv39) teaching kernel, verified with Verus.

- `src/config.rs`: memory layout constants.
- `src/address.rs`: physical addresses, page numbers, page floor and ceiling.
- `src/frame.rs`: the stack-like physical frame allocator, its abstract
  state and the laws it keeps (no frame handed out twice, LIFO reuse,
  conservation of free frames).
- `src/task.rs`: task contexts, task control blocks, the task table, kernel
  stack placement and the app table of the linked image.
- `src/trap.rs`: trap contexts and the two halves of trap handling.
- `src/syscall.rs`: system-call decoding and the `write` call's checks.

`app/` is the kernel binary around the library: boot, CSR access, locks,
raw memory and the calls into the context-switch and trap assembly.
