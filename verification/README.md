# guarden

Deferred cleanup guards and detachable async tasks, with the decisions that
drive them and the front end of the guard macros proved in Verus.

## Layout

- `src/` — the verified library.
  - `token.rs`: a flat token-stream model (groups as open/close markers),
    rendering to source text, identifier and number helpers.
  - `syntax.rs`: the grammar of a guard-macro invocation, stated over token
    values and implemented by a parser proved against it.  Where an
    initializer ends is decided by `syn`; its answers vary with where the
    macro runs, so the grammar takes them as given, and the parser is
    proved for whatever `syn` answers.
  - `expand.rs`: the code an invocation expands to, stated as a token
    sequence and built by code proved to produce it (`proc`).  Each token
    copied from the input keeps the index of its input token, so the names
    the expansion binds resolve where the user wrote them.
  - `guard.rs`: the take-once slot holding a guard's context and action, and
    the lifecycle laws (the action runs at most once, never after a defuse).
  - `task.rs`: `TaskSpawner`, the slot of a detachable task (poll, detach,
    reclaim) and the detachment laws (spawned at most once, never after
    completing inline, exactly once when dropped unfinished, terminated
    exactly when a poll completed or panicked).
  - `outside.rs`: the calls Verus does not read (`syn`'s expression parser,
    `String::push`, `Box::pin`) and the declaration of `Pin`.
- `app/` — the runtime types around it: `ContextGuard` with its `Drop`,
  `DetachableTask` and its `Future`, the Tokio spawner, and the conversion
  between `proc_macro2` token streams and the library's tokens.
- `tests/` — scenario tests of the library.
