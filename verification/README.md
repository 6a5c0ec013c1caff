# lp_core

Fixed-point math, the value stack and opcodes of a small shader VM, and a pool
allocator with collections whose storage comes from a pool, written in Verus and
proved against their contracts.

- `src/dec32`, `src/fixed`: 16.16 fixed-point numbers, vectors, a 3x3 matrix,
  rounding, clamping, interpolation, trigonometry by table, square root, powers
  and Perlin noise.
- `src/vm`: the VM's value stack, its opcodes and their names, and the arithmetic,
  comparison and texture opcodes.
- `src/pool`: the allocator over a region of memory (first fit, splitting,
  coalescing of free neighbours), modelled as a sequence of blocks with its
  invariant; the holder of the active pool; the nesting counters of the host
  allocation scopes; the statistics of live allocations by type and scope.
- `src/collections`: an array, a string, a box and an ordered map (with integer or
  text keys) whose storage is allocated from a pool. The pool model keeps no
  memory contents, so the values are held by the collections while their
  allocations are charged to the pool.
- `app/`: what stays outside the verified library: the thread's active pool, the
  global allocator guard, the per-thread allocation statistics and their printing,
  the `allocator-api2` allocator, boxes of unsized values, formatting, float
  conversions and serde support.
- `tests/`: the library's tests.
