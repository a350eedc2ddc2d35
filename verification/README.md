# pyobject

The object model of a Python virtual machine, written in Verus: objects and
references to them, the built-in types and values, classes and inheritance,
attributes and items, the constants of compiled code, conversions between
objects and Rust values, and iteration.

- `src/` is the verified library. All objects live in a `PyHeap`, which a
  `PyContext` owns together with the built-in types. Contracts speak of the heap
  as a sequence of object models (`object.rs`). `laws.rs` and `builtins.rs` state
  what holds across several operations. What is taken for granted of the `num`
  crates stands in `numbers.rs`.
- `tests/` runs the library.
- `app/` adds what needs closures, floating point numbers, the formatting
  traits or a running virtual machine.

Where an operation needs the virtual machine to run Python code, the library
says which call to make and is continued with its outcome.
