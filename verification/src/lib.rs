//! A micro-benchmark library for hardware random-number generation:
//! a probe for the machine's logical core count and a parallel
//! generation-and-collection engine that partitions a requested total
//! across worker threads and merges their batches.

pub mod rng;
pub mod threading;
