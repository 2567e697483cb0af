# solid_modeling

Implicit-function solid modeling: shapes as signed distance fields, and
FieldCalc, a small functional language for describing them. The library is
written in Verus; its contracts are proved.

## Layout

- `src/lang/` — FieldCalc
  - `types.rs`, `ast.rs`: types and expressions, each with a mathematical model
  - `lexer.rs`, `grammar.rs`: the grammar as spec functions over characters
  - `parser.rs`: the parser, proved to follow the grammar; error messages included
  - `env.rs`, `builtins.rs`: values, environments, errors; built-in names, arities and argument checks
  - `eval.rs`: the evaluator, strict except under fields and lambdas
  - `depth.rs`, `replay.rs`, `semantics.rs`: what evaluation is proved to do
- `src/viewer.rs` — the viewer's controls as a state machine
- `src/evaluator.rs` — the sampling grid of a 2D view and the pixel layout of its images
- `src/csg.rs`, `src/transform.rs`, `src/primitives.rs` — shape combinators
- `app/` — the windowed viewer, the signed distance functions and the
  floating-point arithmetic of the built-ins

## Floating point

The library does not compute with floating point. A scalar is held as the
bits of its double. Where evaluation needs a number computed, the value of a
literal or a built-in applied to checked arguments, it asks for it: the
caller answers, appends the answer to a log and evaluates again
(`lang::eval::eval`, `Evaluation::Pending`). `app/kernel.rs` is such a caller.
