//! A static blog generator: reads a configuration, a page template and a set
//! of markdown content folders, and computes the full set of pages and
//! filesystem actions that make up the rendered site.
//!
//! The crate is organised so that everything that decides or computes is a
//! verified function: text substitution, title derivation, metadata
//! defaulting, post ordering, tag indexing and the site build plan.  The
//! filesystem and the command line live outside the library.

pub mod text;
pub mod config;
pub mod post;
pub mod template;
pub mod ordering;
pub mod tags;
pub mod site;
