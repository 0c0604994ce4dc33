# verdictan

The logic of the `verdictan` command line, written in Verus and proved against its
contracts: escalations, events, export jobs, session history, and the whole life of a
gateway instance (create, check, install, start, run, reload, revert, reconcile,
upgrade, stop, uninstall).

- `src/` is the verified library. What a command decides, computes or prints is a
  function from plain values to plain values. A flow that talks to a gateway or to
  the control plane is a step function: it takes the answers so far and gives the
  next request, or the outcome.
- `app/` is the ordinary Rust around it: arguments, requests, files, processes and
  what is printed. The surrounding program hands in its settings, its state store
  and its gateway runtime through the traits in `app/services.rs`.
- `tests/` runs the library on concrete values.

The functions that call other crates, and what is believed of them, stand in
`src/clock.rs` (`chrono`), `src/json.rs` (`serde_json`), `src/percent.rs`
(`urlencoding`) and `src/text.rs` (the standard library).
