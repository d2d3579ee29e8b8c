# pidgin

A small Lisp that compiles to a register-based virtual machine, written as a library
whose behaviour is specified and proved with Verus.

- `src/compiler/parse.rs`: tokenizing and parsing s-expressions into trees, and reading
  tokens (integers, floats, strings, `nil`, symbols).
- `src/compiler/ast_to_ir.rs`: the symbol ledger, and compiling a token tree into an
  intermediate block of single-assignment registers.
- `src/compiler/expressions.rs`: reading token trees as expressions (literals, quotes,
  applications, functions), replacing symbols, and lambda lifting: a function that reads
  symbols bound around it becomes a partial application of a function that takes them
  as arguments. `expression_laws.rs` proves that lifting leaves every function closed.
- `src/compiler/transformations/`: inlining calls of core functions into instructions,
  erasing unused constants, computing register lifetimes, and allocating the virtual
  registers to the machine's 256 registers; `raw_ir_to_bytecode` chains them.
- `src/runtime/`: values, the virtual machine (`evaluation.rs`, with the register-level
  semantics of instructions in `register_ops.rs`), frames and coroutines (`control.rs`),
  the text of values (`description.rs`), and laws of the instruction set (`laws.rs`).
- `src/runtime/host.rs`: what the machine needs from its embedding program (floating
  point arithmetic, printing, external functions), as a trait the embedder implements.
- `app/main.rs`: a command-line runner with an `f64` host.
