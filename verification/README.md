# rust-autoargs

Named arguments with default values for Rust functions and methods, as a
verified library.

- `src/` (Verus): the expansion of `#[autoargs]`, `#[impl_autoargs]` and
  `#[default = "..."]`. It takes the item described as plain values
  (`model::FnItem`, `model::ImplBlock`) and returns the Rust source text of the
  expansion: the argument struct, its `Default` implementation, the function
  rewritten to take the struct, and the `macro_rules!` macro that calls it with
  named arguments. Contracts state the exact text (`codegen.rs`), the argument
  extraction (`model.rs`) and the snake_case to CamelCase conversion
  (`camel.rs`); laws are public proof functions beside them. `syntax.rs`
  reads an item's source text with `syn` into the model and expands it.
  What the lexer gives depends on whether the process runs inside the compiler,
  so the exact contracts take the lexer's outcomes as arguments, and the
  functions that call the lexer state what holds whatever it returned.
- `app/`: the token-stream edge: hands the library the source text of the
  attribute's input and lexes the returned text back into tokens.
