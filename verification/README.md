# dex_bench

A load generator for DEX swap tables in a MySQL-compatible database. It samples tokens and makers,
runs one of ten UNION ALL queries with random filters from many workers at once, optionally
verifies each answer against the primary index, and reports latencies.

- `src/` is the library. It holds every decision of the generator, with contracts that Verus
  proves: which samples and makers are kept, which windows, makers and cursors are drawn, the SQL
  of each query type, the comparison of answers, the statistics and the lines of the reports.
- `app/` is the program: the command line, the database, the clock, the terminal, and the
  arithmetic on floating-point volumes and rates.
- `tests/` runs the library on concrete values, with `chrono` and `rand` linked in.

What the library takes from `chrono`, `rand` and the standard library without proof is stated
where it is called: `timestamp.rs`, `random.rs`, `stats.rs` and `text.rs`.
