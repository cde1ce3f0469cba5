//! Orchestrator core for a desktop forensic-analysis shell.
//!
//! The library owns the module catalog, the lifecycle state machine of one
//! analysis submission, the wire encoding and decoding of the analysis
//! exchange, and the non-blocking relay that carries a worker's outcome back
//! to the rendering loop. The surrounding program (rendering, network I/O,
//! worker threads) drives these verified pieces.

pub mod backend;
pub mod bridge;
pub mod model;
pub mod registry;
pub mod session;
pub mod text;
pub mod wire;
