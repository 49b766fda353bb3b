# Bastion

An HTTP load-testing tool whose decisions are proved with Verus.

- `src/` is the verified library: the configuration and its validation, the
  command-line, header and threshold parsers, the scheduler's and the
  aggregator's decisions, per-window and per-worker metrics over
  `hdrhistogram`, the run's totals and spike detection, the checked parts
  of each request and what the reports decide. Every public function states
  its result in its contract, but for the shared progress counters, whose
  values live in `std` atomics that Verus does not model; calls into `hdrhistogram`, `humantime`,
  `reqwest`, `hyper` (its `http` types) and `governor` go through small
  trusted wrappers whose contracts say what those crates do.
- `app/` is the program around it: argument parsing with `clap`, the async
  scheduler, worker and aggregator loops on `tokio`, the HTTP client, the
  live view, the reports, and everything that needs floating point
  (rates, percentages, histogram percentile estimates, comparisons).
- `tests/` exercises the library on concrete values.
