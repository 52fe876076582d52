# program-analyzer

The verified core of a program analyzer.

- `src/metrics` holds counters and latency histograms in a registry, and exports them as JSON.
  `model.rs` says what a registry holds and what each operation makes of it, `laws.rs` what holds
  over many operations. `store.rs`, `json.rs` and `clock.rs` declare what is relied on of
  `dashmap`, `serde_json` and the clock of `std`.
- `src/pipeline` completes findings from expert systems and a knowledge base (`enrich.rs`) and
  keeps the most confident finding of each kind at each spot (`dedup.rs`, `key.rs`).
  `enrich_laws.rs` and `dedup_laws.rs` state what holds of both.
- `app` is the ordinary Rust around the core: the registry that all threads share, and the calls
  into the expert crates.
