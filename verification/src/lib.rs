//! Tilt-to-grid mapping for a handheld level: an acceleration sample and a
//! sensitivity mode give a cursor on a five by five grid of lights, shown as a
//! frame with exactly one lit cell.

pub mod sample;
pub mod mode;
pub mod grid;
pub mod frame;
pub mod level;
pub mod cycle;
