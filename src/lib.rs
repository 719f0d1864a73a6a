//! A terminal "will you be my valentine" animation engine: the phase state
//! machine, a fixed-point particle simulation, a twinkling starfield and the
//! frame-driven cadences that a drawing layer reads.

pub mod draw;
pub mod engine;
pub mod visuals;
