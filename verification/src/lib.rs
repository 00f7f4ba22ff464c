//! A verified translator from a parsed LOLCODE syntax tree to Lua source text.
//!
//! The syntax tree is the library's own data model: plain values that a front
//! end fills in after parsing. Rendering is a pure, single-pass, bottom-up
//! text synthesis; each public renderer carries a contract that pins the
//! produced text to the specification functions in [`model`].

pub mod ast;
pub mod laws;
pub mod model;
pub mod num;
pub mod render;

pub use render::ToLua;
pub use render::TranslationError;
pub use render::translate;
