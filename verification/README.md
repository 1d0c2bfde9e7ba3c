# vergil

Formal verification for Solidity, guided by a language model and decided by
SMT solvers. The model proposes candidate properties; a second model critiques
them; Halmos and the Solidity SMTChecker race to decide each one; only a solver
verdict ever marks a property verified.

This crate is the decision core of that pipeline, written in Verus and proved
against its contracts:

- `portfolio`: how a Halmos or SMTChecker answer becomes a backend outcome, and
  how the race settles on a verdict (only a backend's own proof verifies).
- `cegis`: the synthesize → critique → gate → dispatch → diagnose → refine loop
  as a state machine over events; it never exceeds its iteration cap, stops
  with `verified` exactly when an outcome verified, and diagnoses the latest
  counterexample.
- `confirm`: the intent-confirmation gate and its resumable state.
- `verdict`, `report`: the stratified verdict, its headline and the text,
  Markdown and `report.md` renderings, with the "Not checked" section always
  present.
- `unified`, `fingerprint`, `catalog_intent`, `oracle_intents`, `structural`,
  `self_test`: the zero-config tier (attack catalog, tests, NatSpec) decisions.
- `synthesis`, `critique`, `diagnosis`, `refinement`: prompt variables and the
  reading of model replies.
- `scaffold`, `dispatcher`, `layout`, `cli`, `proof_summary`, `kill_criterion`:
  harness rendering, output paths, command-line decisions and proof summaries.
- `text`, `clock`, `telemetry`, `source`: string helpers, time stamps, event
  names, provenance.

`app/` is the `vergil` command line around it: files, processes, model and
solver calls, async plumbing, floating-point cost accounting and JSON/YAML.
`tests/` exercises the library on concrete values.
