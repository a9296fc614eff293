//! A map-ready index of geotagged media.
//!
//! The library holds the decisions of a batch run over a directory tree:
//! which entries are looked at, what becomes of a file once its metadata has
//! been read, what its thumbnail is called and where it goes, and what the
//! final document holds. Reading metadata, resizing images and writing files
//! are left to the caller, who reports back what happened.

pub mod paths;
pub mod text;
pub mod error;
pub mod json;
pub mod media;
pub mod pipeline;
pub mod laws;
