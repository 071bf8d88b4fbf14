//! Layout engine for a small PIC-like diagram language.
//!
//! Lengths are exact integers counted in eighths of an inch: every fixed
//! size of the language (shape extents, the movement step, the arrow head)
//! is a whole number of eighths, so placement is exact arithmetic.
pub mod geometry;
pub mod shape;
pub mod layout;
pub mod parse;
pub mod svg;
pub mod laws;
