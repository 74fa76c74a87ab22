//! Thread-to-core placement rules for big.LITTLE Android devices: a glob
//! matcher for thread names, a built-in classification table, CPU topology
//! grouping by maximum frequency, and the decisions of the scan loop.

pub mod text;
pub mod glob;
pub mod rules;
pub mod topo;
pub mod config;
pub mod cpuset;
pub mod scanner;
