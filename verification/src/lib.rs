//! Layout and control logic for a window that shows a tiled background with
//! one image centered on top of it.
//!
//! The crate decides where every texture goes, which input ends the render
//! loop, where a resource file lives and how a failure is reported. Drawing,
//! decoding and input polling are left to the caller, who hands in plain sizes
//! and events and receives plain positions and commands.

pub mod input;
pub mod layout;
pub mod render_loop;
pub mod report;
pub mod resource;
pub mod scene;
