//! Least-cost routing on a directed road network under pluggable cost
//! models.
//!
//! The core is a label-setting A* search over an immutable graph store. A
//! traversal model carries a vector of named accumulators across edges and
//! prices each relaxation; a frontier model prunes inadmissible successor
//! edges; a cost estimator supplies an admissible lower bound to the
//! destination. All quantities are fixed-point integers in milli-units of a
//! tagged unit, so every conversion and every cost is stated exactly in the
//! contracts. File ingestion, configuration and the black-box energy
//! predictor live outside this crate and hand it plain values.

pub mod cost;
pub mod energy;
pub mod frontier;
pub mod graph;
pub mod heuristic;
pub mod laws;
pub mod property;
pub mod search;
pub mod search_app;
pub mod speed;
pub mod state;
pub mod traversal;
pub mod units;
