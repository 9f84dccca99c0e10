//! Translation of a Dockerfile-style instruction document into the narrow
//! build configuration understood by the image builder: classification of
//! raw instructions, destination-path parsing, and the fold that assembles
//! the final `BuildConfig`.
pub mod args;
pub mod config;
pub mod dest;
pub mod instruction;
pub mod text;
pub mod translate;
