//! The rich-text model shared by all units and its rendering.
pub mod color;
pub mod doc;
pub mod markup;
pub mod pango;
