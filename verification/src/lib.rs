//! A typed facade over a foreign-runtime OCR engine.
//!
//! The crate covers the pure, checkable part of the bridge: the validated
//! run configuration ([`run_args::EasyOcrRunArgs`]), the staging plan for the
//! bundled model weights ([`stager`]), the encoding adapter for in-memory
//! images ([`adapter`]), and the typed result model ([`types::OCRData`]).
//! The host program performs the filesystem writes and the actual calls into
//! the foreign runtime, handing this crate plain values in both directions.

pub mod adapter;
pub mod bridge;
pub mod error;
pub mod run_args;
pub mod stager;
pub mod types;

pub use error::{EasyOcrErr, EasyOcrResult};
pub use run_args::{EasyOcrRunArgs, RunConfig};
pub use types::{BoundingBox, Detail0, Detail1, DetectedText, OCRData, RawDetection};
