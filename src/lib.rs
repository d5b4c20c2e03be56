//! The client-side controller of a creature colour-palette search page.

pub mod app;
pub mod lemmas;
pub mod render;
pub mod text;
