# eat_the_rich_core

Verified core of the Eat The Rich sentiment engine.

- `src/` is the library, verified with Verus: the mention router (which inference
  tier handles a social-media mention), the fundamentals overlay (short / buy /
  no signal), the KV-cache token budget, the choice of compute device, and the
  Arrow schema of sentiment ticks.
- `app/` is the program around it: the ingest clients, the DuckDB store, the
  dashboard server, the floating-point scoring, and the main polling loop.
- `tests/` runs the library on concrete inputs.
