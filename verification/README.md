# jump_jet

A WebAssembly (MVP) module decoder and interpreter whose logic is verified
with Verus.

- `src/leb.rs`: LEB128 integers, with the limit on the number of bits.
- `src/parser/`: the binary format: the header, each section and the
  instructions, each decoder stated against a specification over the bytes.
- `src/provider.rs`: a section-by-section listing of a module.
- `src/tree/`, `src/parse_tree/`: what a decoded module holds.
- `src/runtime_tree/`: the interpreter: numeric instructions, memory access,
  control flow, calls with a fuel bound, nesting of flat code into blocks,
  building a template from a module and instantiating it, and calls of
  imported functions, which a host closure provides.
- `src/runtime/`: argument checks, host values and the path from bytes to a
  template.
- `app/main.rs`: a command-line runner that reads a module file, optionally
  lists its sections and calls its export `add`, with `env.test` as a host
  function.

Floating-point values are held as their IEEE 754 bits. Moves, absolute
values, negations, comparisons, truncations to integers and conversions of
integers run; the other floating-point instructions stop the run with
`Trap::FloatArithmetic`.

The tests under `tests/` run the library on concrete modules and instructions.
