//! A registry of runnable lessons with selector resolution.
//!
//! The library keeps an ordered registry of lesson descriptors, resolves a
//! user-supplied selector (a decimal number or a slug) to one descriptor,
//! and renders the registry as a table of lines. Printing and the lesson
//! bodies themselves live outside the library: a caller looks the resolved
//! descriptor up by index and invokes the matching runnable itself.

pub mod dispatch;
pub mod lessons;
pub mod registry;
pub mod render;
pub mod resolve;
pub mod text;
