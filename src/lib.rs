//! Core logic of an in-browser sandbox for the Fusion language: the line-number
//! gutter of the code editor, the style mirror between editor and gutter, the
//! format-in-place action, and the state machine that bootstraps the runtime
//! and serializes evaluation requests.

pub mod line_numbers;
pub mod sandbox;
pub mod style;
pub mod editor;
