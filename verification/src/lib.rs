//! Attention-drift detection core: feature extraction from activity signals,
//! a fixed-point inference service around a swappable anomaly-scoring model,
//! and a time-integrated drift controller that turns judgments into throttled
//! interventions.
//!
//! All signal values are carried as integers in thousandths (milli-units), so
//! the whole decision pipeline is exact and free of floating point.

pub mod controller;
pub mod extractor;
pub mod inference;
pub mod orchestrator;
pub mod sample;
pub mod state_engine;
pub mod text;
