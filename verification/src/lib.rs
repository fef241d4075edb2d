//! Renders text inside a decorative comment box and decides how such a box
//! is inserted, once and only once, at the start or the end of file contents.

pub mod text;
pub mod layout;
pub mod render;
pub mod insert;
pub mod choices;
pub mod lines;
pub mod confirm;
