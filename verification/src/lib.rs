//! A registry that pairs each scene-graph window with the native window
//! opened for it, and the scale arithmetic that sizes that native window.

pub mod descriptor;
pub mod error;
pub mod id_map;
pub mod ident;
pub mod scale;
pub mod state;
pub mod windows;
