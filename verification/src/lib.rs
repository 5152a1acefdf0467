//! Discrete core of an Arctic drone simulation: grid indexing for wind-field
//! interpolation, FFT wavenumber bins, run termination control, configuration
//! defaults and wind-grid I/O error classification.

pub mod config;
pub mod spectral;
pub mod grid;
pub mod run_control;
pub mod io;
