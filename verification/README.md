# minijvm

The runtime library of a small Java virtual machine, written in Verus: the
bytecode checker, the thread scheduler and object monitors, and the native methods
of the Java standard library classes it supports (`java.lang`, `java.util`,
`java.io`, `java.math`, `java.util.regex`), each with a contract that Verus proves.

## Layout

- `src/runtime/` — values, heap objects, frames, method table and the machine state.
- `src/bytecode/` — the pre-execution checker for method code.
- `src/threading/` — threads, the scheduler (FIFO, round-robin, priority) and monitors.
- `src/stdlib/` — the method tables of the standard library classes; each method
  names the native that implements it.
- `src/natives/` — the natives themselves, one module per family (collections,
  maps, strings, streams, big integers, regular expressions, scanners, ...),
  `dispatch.rs`/`call.rs` to run any native by name, and `laws.rs` with the
  properties that relate several operations.
- `src/text.rs` — text helpers, and most of the few calls into `std` whose
  behaviour is taken on trust (the clock reading is in `src/natives/clock.rs`).
- `app/` — the host: console and file I/O, floating-point text and arithmetic,
  and operating-system threads. It runs every native through the
  library and supplies what only the host can.
- `tests/` — tests of the checker, the collections, the runtime and the input
  natives.

Values of type `float` and `double` are carried as their bit patterns; wherever a
native needs their text or arithmetic, the host computes it and hands it over.

## Limits

- The library executes no bytecode, so a native cannot call back into Java code:
  `HashMap.merge`, `computeIfAbsent` and `forEach` do not apply the function
  object they are given, and `Collections.sort` with a comparator orders by the
  natural order.
