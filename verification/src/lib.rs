//! A heuristic maliciousness assessment of a PDF document's object graph:
//! independent detectors scan an immutable document model for threat
//! indicators, Flate-filtered streams are decoded under a size cap, and the
//! findings aggregate into a deterministic severity score, tier and verdict.

pub mod analyze;
pub mod config;
pub mod decode;
pub mod detectors;
pub mod extract;
pub mod model;
pub mod pattern;
pub mod result;
pub mod score;
pub mod stats;
