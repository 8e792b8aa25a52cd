# perf_bench

Measures transports between processes: how many events per second a producer
and its consumers reach, and how long each event takes.

The library in `src/` decides and computes. It plans scenarios and the children
that run them, paces producers, counts and measures what consumers receive,
records latencies, puts results into reports, relates them to their baselines,
and renders tables, CSV lines and log entries. It is written in Verus: what each
function promises stands in its `requires` and `ensures`, and is proved.

- `scenarios/` has the scenarios of each benchmark, `suites.rs` the benchmarks,
  `bench.rs` what the two have in common, `launch.rs` the children that a
  scenario spawns.
- `child_env.rs` has what a child reads from its environment; `handover.rs` proves
  which of the settings of its scenario it reads, producer or consumer, and which
  inherited variables get in the way.
- `pacing.rs`, `event_consumer.rs`, `pingpong.rs` and `frames.rs` have the loops
  of producers and consumers, one step at a time.
- `latency.rs`, `signal_latency.rs` and `signal_counters.rs` measure.
- `averages.rs` has what averages are formed of; `reporting.rs`, `report/` and
  `repeatability.rs` report.
- `text.rs`, `json_text.rs`, `decimal.rs`, `double.rs` and `metric.rs` are what the
  rest stands on.

Some of what the proofs rest on is believed, not proved. Each such item says so
in its comment:

- what `hdrhistogram` counts and reports (`latency.rs`);
- that `tabled` draws the same table from the same cells (`table.rs`);
- how the standard library turns bytes into text (`process.rs`), sorts numbers
  (`signal_counters.rs`), and makes, fills, clears and compares texts (`text.rs`,
  `bench_log.rs`). Of the clock (`events.rs`) nothing is believed.

`app/` has what touches the machine: processes, clocks, files, shared memory,
floating point and JSON. `tests/` runs the library.
