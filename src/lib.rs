//! Transaction builder core: amounts, per-pool accumulators, change resolution,
//! consensus version selection, progress reporting and the two-phase build.
pub mod amount;
pub mod builder;
pub mod consensus;
pub mod orchard_pool;
pub mod progress;
pub mod prover;
pub mod sapling;
pub mod transparent;
