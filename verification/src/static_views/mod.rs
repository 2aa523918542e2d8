//! Output that is printed once rather than drawn in the terminal UI.

pub mod fragmap;
