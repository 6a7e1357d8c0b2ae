//! Verified core logic of the pour-over coffee simulator: solver and scene
//! catalogs, command-line parsing for the profiler, pass scheduling, the
//! particle pool and buffer layout, the bed lattice, the filter mesh topology
//! and the integer hashing used for deterministic sampling.

pub mod text;
pub mod pressure;
pub mod schedule;
pub mod bed;
pub mod inflow;
pub mod profiling;
pub mod scene;
pub mod profiler;
pub mod profiler_cli;
pub mod profiler_plan;
pub mod profiler_timing;
pub mod stepping;
pub mod diagnostics;
pub mod buffers;
pub mod filter_mesh;
pub mod sdf;
