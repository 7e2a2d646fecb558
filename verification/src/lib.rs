//! A microbenchmark harness core: the event model, the worker / dispatcher /
//! aggregation logic of a bounded-queue fan-out pipeline, and the throughput
//! arithmetic, each with a verified contract. The async runtime, command-line
//! handling and output formatting live outside this crate's verified core.

pub mod event;
pub mod metrics;
pub mod pipeline;
