# nest_sema

The middle of a compiler for the Nest language, verified with Verus: type
inference over resolved trees, and lowering of what was inferred to a small typed
program.

- `src/list.rs`, `ids.rs`, `table.rs`, `symbol.rs`, `bigint.rs`: values the rest
  is built of. Every value a contract speaks of is inductive, so that equality
  means what it says.
- `src/ty.rs`, `ast.rs`, `def.rs`, `facts.rs`, `ir.rs`, `diag.rs`: types, trees,
  definitions, what is known about the nodes, the lowered program, and messages.
- `src/intrinsics.rs`: the operations the compiler supplies.
- `src/subst.rs`, `decls.rs`, `fold.rs`: substitution, questions about
  declarations, and arithmetic at compile time.
- `src/unify.rs`, `keeping.rs`: the state of inferring a file, unification, and
  what every step of inference keeps.
- `src/types.rs`, `solve.rs`, `exprs.rs`, `calls.rs`, `coerce.rs`: type
  expressions, the solver, expressions, calls, and coercions and patterns.
- `src/bodies.rs`, `members.rs`, `infer.rs`: function bodies, declarations, and
  whole files.
- `src/lower.rs`, `placing.rs`: lowering, and what every step of it keeps.
- `src/text.rs`: messages as text.
- `src/laws.rs`: what holds of all of these together.
- `app/`: how facts are stored, and how messages are printed.

Each step is a function from a state to a state. Beside the executable function
`f` stands the mathematical one, `f_spec`, and the contract of `f` says that it
computes it. How deep a walk may nest is bounded by `DEPTH_LIMIT`: it gives up with
an error type, an empty list or no answer when that runs out, and the file is
complained about. A list is always walked to its end.
