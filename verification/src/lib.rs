//! Lists a directory subtree as an indented tree.
//!
//! A [`tree_scanner::Scanner`] reads a listing of what is on disk, asking
//! its caller for each answer of the file system. The filters of a
//! [`tree_generator::TreeGeneratorConfig`] narrow the listing into a
//! [`tree_generator::Tree`], and a [`tree_renderer::TreeRendererCLI`] lays
//! that tree out as lines. [`laws`] states what holds of every listing.

pub mod laws;
pub mod text;
pub mod tree_generator;
pub mod tree_renderer;
pub mod tree_scanner;
