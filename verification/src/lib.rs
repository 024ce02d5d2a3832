//! A unified abstraction for reading and writing archive files in the zip,
//! tar and 7z container formats, exposing a single entry model (file with
//! content, or directory by name) regardless of the underlying format.
//!
//! The compression, checksum and container-framing work is done by one codec
//! crate per format; this crate specifies and verifies the dispatch and
//! normalization layer around them.

pub mod codec;
pub mod detect;
pub mod error;
pub mod extern_specs;
pub mod laws;
pub mod model;
pub mod reader;
pub mod sevenz_codec;
pub mod tar_codec;
pub mod writer;
pub mod zip_codec;

pub use detect::detect;
pub use error::ArcError;
pub use error::ArcResult;
pub use model::ArcEntry;
pub use model::ArcFormat;
pub use model::EntryModel;
pub use reader::ArcReader;
pub use writer::ArcWriter;
