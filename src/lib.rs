//! An animated desk-cat overlay: the cat's body, arm and face follow the
//! cursor, and its mouse lights up with the buttons held down.
//!
//! All geometry here is exact integer arithmetic. Design-space coordinates are
//! fixed-point numbers in millionths of a unit, the cursor is a fraction held as a
//! numerator over a denominator, and opacity is counted in hundredths.

pub mod input;
pub mod geometry;
pub mod shapes;
pub mod pose;
pub mod scene;
pub mod view;
