//! Resolves the version of the package that a project directory describes.
//!
//! A fixed, ordered table of well-known manifest files (Cargo, Node, Poetry,
//! Composer, Gradle, generic project, Mix) is probed by the caller; the first
//! file that can be read is handed to the matching format extractor, and the
//! raw version it finds is normalized to a `v`-prefixed string.

pub mod extract;
pub mod freetext;
pub mod normalize;
pub mod resolve;
pub mod structured;
pub mod text;
