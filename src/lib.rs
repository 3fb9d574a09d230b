//! A small settings panel with custom-drawn rounded quads: the quad widget's
//! layout and draw contract, and the panel state that drives it.
pub mod geometry;
pub mod quad;
pub mod panel;
pub mod scene;
pub mod laws;
