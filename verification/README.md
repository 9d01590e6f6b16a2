# jj_core

The decisions behind three parts of a version control tool, verified with Verus.

- `user_error`: errors as the user sees them, each with a kind and hints. The modules
  `error_model`, `hints`, `present` and `present_git` say which errors there are, which hint each
  of them gives and how each is presented.
- `workspace_util`: the environment of a workspace, from its configuration to the commits that must
  not be rewritten. The configuration, the parser and the repository are handed in as functions.
- `explode`: the plan that turns the evolution history of a change into a chain of commits, one
  commit at a time.

`src/` is the verified library. `app/` runs it: the command line, the loop that writes commits, and
the conversion of errors. `tests/` runs the library on concrete values.

What Verus takes on trust stands in `src/text.rs` (two conversions of the standard library and
`itertools`' `join`) and in `src/local_time.rs` (`chrono`'s local time).
