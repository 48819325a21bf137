# deno_sandbox_poc

Runs an untrusted JavaScript module in a V8 isolate with a heap limit, a time
limit and an allowlist of importable modules, and reports its JSON result and
metrics.

- `src/` is the verified library (Verus): the module table and the allowlist
  loader's policy, the wrapper module that hands the script its context, the
  heap budget, how a failure is classified, what an execution reports, the
  error messages, and the stand-in database behind `ctx.db`.
- `app/` drives the engine (`deno_core`): the module loader and host
  functions as the engine sees them, the near-heap-limit callback, the
  watchdog thread, logging, and the command-line runner.
- `tests/` exercises the library.
