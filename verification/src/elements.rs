//! The nodes that the library itself provides.

pub mod canvas;
pub mod group;
