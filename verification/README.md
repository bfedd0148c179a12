# pie

An evaluator, normalizer and bidirectional type checker for Pie, the small
dependently typed language of *The Little Typer*, written in Verus and
proved against a mathematical model of the language.

## Layout

- `src/model/` — the model: evaluation (`eval.rs`), read-back to normal
  forms (`readback.rs`), elaboration (`typing.rs`), names and contexts
  (`names.rs`) and α-equivalence (`alpha.rs`), as total spec functions of a
  fuel bound. A computation that needs deeper recursion than its fuel
  returns `Error::OutOfFuel`.
- `src/syntax.rs`, `src/value.rs`, `src/symbol.rs` — terms, values,
  neutral terms, environments, contexts, renamings, errors and symbols.
- `src/normalize.rs`, `src/typechecker.rs`, `src/basics.rs`,
  `src/alpha.rs` — the executable dispatchers and helpers; each function is
  proved equal to its model function.
- `src/types/` — one module per type former (natural numbers, functions,
  pairs, lists, vectors, equality, sums, `Absurd`, holes): evaluation,
  eliminators on values, read-back and elaboration of its forms; plus
  `cores.rs` and `values.rs`, constructors for terms and values.
- `src/text.rs` — printing terms in Pie's s-expression syntax.
- `src/resugar.rs` — turning elaborated terms back into arrows and
  multi-parameter `λ`s, with their free variables.
- `src/laws/` — proved laws: the eliminators' computation rules, what
  elaboration produces, how fresh names are chosen, how numerals normalize,
  α-equivalence's reflexivity and symmetry, read-back's sugar-free normal
  forms, and that more fuel never changes an evaluation or read-back that
  did not run out of fuel.
- `tests/` — tests on concrete terms.
- `app/` — deferred, memoized evaluation (`Delay`) on top of the library.

Every fuel-taking function has a fuel-less counterpart (`Core::val_of`,
`Core::synth`, `Core::check`, `Core::is_type`, ...) that uses
`DEFAULT_FUEL`, the largest `u64`: a depth no call stack reaches.

The parts of a term (an eliminator's motive, base and step, a
constructor's arguments, an application's argument) are only used when
they are needed. A part whose evaluation fails becomes a `Value::Failed`
that keeps the failure: evaluating `(ind-Nat zero m b s)` gives `b`'s value
whatever `m` and `s` are, and the failure only surfaces when a failed part
is looked into.
