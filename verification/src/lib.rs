//! The adaptive runtime governor of a local assistant: it classifies the host
//! into a device tier, reads resource pressure from live telemetry, classifies
//! requests, turns tier, pressure and request class into token and concurrency
//! budgets, selects the model that serves a request, and decides when the
//! resident model is unloaded or warmed ahead of time.
//!
//! The library holds no clock and does no input or output: callers pass in the
//! time, the telemetry and what the stores hold, and carry out what it decides.
//! Shares are held in basis points and scores in fixed-point units, so that every
//! rule is stated and proved over integers.

pub mod audit;
pub mod classifier;
pub mod crypto;
pub mod error;
pub mod governor;
pub mod hardware;
pub mod intent;
pub mod memory_manager;
pub mod models;
pub mod orchestrator;
pub mod preloader;
pub mod pressure;
pub mod router;
pub mod text;
pub mod usage;
