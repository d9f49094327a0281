# int-interval

Half-open integer intervals `[start, end_excl)` over every primitive integer type
(`U8CO`/`I8CO` up to `U128CO`/`I128CO` and `UsizeCO`/`IsizeCO`), verified with Verus.
An interval is never empty: `start < end_excl` is a type invariant.

Layout of `src/`:

- `span.rs`: the mathematical model. `Span` is an interval of mathematical integers;
  every operation is a spec function on it, and the laws of the algebra are proof
  functions (set semantics of intersection, union, difference and symmetric difference,
  the gap between two intervals, Minkowski sums, the tightness of product and quotient
  hulls, the meaning of checked and saturating results).
- `intervals/`: one module per integer width. Each type views as a `Span`, and each
  method's contract states its result through the spec functions of `span.rs`.
- `capability.rs`: traits that let generic code use any interval type (`IntCO` and the
  finer capability traits).
- `res.rs`: `OneTwo` and `ZeroOneTwo`, the fixed-size results of union and difference.
- `traits/`: the `Int` and `Unsigned` traits over the primitive integers, with checked
  and saturating arithmetic and decimal parsing stated over the mathematical values.

- `crate_root.rs`: the build tool's logic: the text of a crate root listing one interval
  module per width (`lib_rs_source`, equal to the spec `lib_rs_text` after a header), and
  the workspace root two levels above a manifest directory (`workspace_root`).

`app/` holds what is not verified: the float conversions of the integer trait, and the
build tool's argument check and file writing.
