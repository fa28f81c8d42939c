//! Turns a vector drawing into a motion program for a two-state pen plotter,
//! together with a normalized drawing of exactly what will be plotted.

pub mod decimal;
pub mod geometry;
pub mod xml;
pub mod document;
pub mod gcode;
pub mod flatten;
pub mod model;
pub mod stripper;
pub mod laws;
