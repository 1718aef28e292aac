# matcha

A framework for breaking token streams down into typed values, for use in
procedural macros, with its parsers and patterns proved correct by Verus.

## Layout

- `src/` is the verified library.
  - `tokens.rs`: the token model (groups, identifiers, punctuation,
    literals), each token carrying its printed text and its span, and the
    mathematical value of a token tree.
  - `text.rs`: how tokens print.
  - `error.rs`: parse errors and their messages.
  - `stream.rs`: the buffered `Stream`, non-consuming `StreamView`s, and the
    traits `StreamLike`, `FromStream`, `MatchStream` and `DiagDisplay`, each
    with the spec functions that parsers and patterns state their behaviour
    in.
  - `impls.rs`, `tuples.rs`: parsers and patterns for token trees, options,
    vectors, slices, arrays, string patterns and tuples.
  - `utils/`: the combinators (`Cut`, `Delimited`, `Greedy`, `Maybe`, `Neg`,
    the repetitions) and the single-token types (`Ident`, `Literal`,
    `Punct`, the named punctuation, groups).
  - `laws.rs`: properties that relate several parsers or operations.
- `app/` holds what works with the compiler's own token streams: conversion
  between `proc_macro2` tokens and the library's model, compile errors,
  `quote` support, and the `decompose!` and `compose!` macros.
- `tests/` runs the library on tokens lexed by `proc_macro2`.
