//! Real-time rhythmic feature extraction over captured audio blocks.
//!
//! The library turns a block of mono samples (in signed 16-bit integer
//! scale) into a magnitude spectrum's band energies, a debounced beat flag
//! and a normalized rhythm intensity, and models the command-driven
//! controller that owns at most one capture session at a time. Hardware
//! capture, the forward transform (floating point) and event delivery live
//! in the host application around this crate.

pub mod band;
pub mod block;
pub mod catalog;
pub mod controller;
pub mod detector;
pub mod params;
pub mod pipeline;
pub mod rhythm;
