# spin_factors

Composable runtime factors for WebAssembly instances, verified with Verus.

A set of factors is a list of fields, each holding a factor. For every
instance, each factor's builder is prepared in declaration order, with a
context that reaches the builders of the factors declared before it; then
every builder is built into that factor's instance state, in the same order.

- `src/` is the verified library: factor lookup (`lookup`), the builder
  table and preparation context (`builders`), the set of factors and its
  build protocol (`spin_factors`), the order of linker registrations
  (`link_plan`), the reading, checks and names of `#[derive(SpinFactors)]`
  (`derive`), and the WASI, WASI preview 1, outbound HTTP and outbound
  networking factors. `runtime` declares the wasmtime state that factors
  hold and the few calls that make it.
- `app/` holds what stays outside the proofs: the derive's code
  generation with `quote`, and the calls that add each factor's
  host interfaces to a wasmtime linker.
- `tests/` runs the library on concrete values.
