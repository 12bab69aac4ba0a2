//! Generator for typed OpenGL-style bindings.
//!
//! Given an in-memory registry of constants (`Enum`s), callable entry points
//! (`Cmd`s) and semantic constant groups, the library emits the text of a
//! complete binding module: a function-pointer table with a fallback-aware
//! loader, and one wrapper type per constant group.

pub mod collab;
pub mod groups;
pub mod loader;
pub mod model;
pub mod params;
pub mod struct_gen;
pub mod text;
