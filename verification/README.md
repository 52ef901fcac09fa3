# grand_pattern_bench_v2

A benchmark of bookkeeping strategies for a conservation law: each strategy
stores perceptions into one rolling database and predictions into another,
and the run checks that the two total magnitudes stay balanced.

Layout:

- `src/` — the verified library (Verus): the 3 × 3 × 2 experiment grid and
  its labels (`config`, `decimal`), the rolling database and its garbage
  collection with the laws it obeys (`database`), the tick schedule of
  anomaly injection and conservation checks (`schedule`), and the strategy
  names (`strategy`).
- `app/` — the benchmark program: float vectors, the signal generator, the
  strategies' float bookkeeping, the simulation runner and the report. It
  calls the library for the grid, the databases and the schedule.
- `tests/` — tests of the library.
