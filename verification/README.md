# xilem_core_auralis

Version-tracked memoizing views for `xilem_core`, driven by the signals of
`auralis_signal`.

- `src/` is the verified library: the per-frame records of the five views
  (`SignalMemoizeState`, `WatchSignalState`, `EffectViewState`,
  `StateMemoizeState`, `SignalStateMemoizeState`), the functions that decide
  whether a frame rebuilds and update those records, and the laws of that
  decision (`src/tracking.rs`, `src/effect_view.rs`).  The calls into
  `auralis_signal` that the decisions need go through the trusted wrappers
  of `src/foreign.rs`; a child's answer to a message is read as the
  library's `MessageOutcome`, which mirrors `xilem_core::MessageResult`.
- `app/` implements `xilem_core::View` for the five views on top of those
  decisions, and holds `SignalScope`, whose shared type-erased map and async
  tasks the verifier cannot hold.
- `tests/` drives the decisions on concrete signals and versions.
