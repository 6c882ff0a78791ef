//! Loading the first document of a YAML text and rendering its value tree as
//! one line of text.
//!
//! The YAML grammar itself is handled by the `yaml-rust` parser; everything
//! around it (the value tree, the choice of the first document, the rendering
//! and the failure taxonomy) is verified here.

pub mod decimal;
pub mod document;
pub mod loader;
pub mod render;
pub mod yaml;

pub use crate::document::Document;
pub use crate::loader::collect;
pub use crate::loader::first_document;
pub use crate::loader::load_text;
pub use crate::loader::render_first;
pub use crate::loader::LoadError;
pub use crate::loader::Source;
pub use crate::render::render_document;
pub use crate::render::render_into;
pub use crate::yaml::lift;
pub use crate::yaml::ParseFailure;
