//! Companion-metadata generation for volumetric microscopy images.
//!
//! A volume stored as one multi-page file is described anew as a set of
//! single-slice files: one plane record per depth position and channel, each
//! naming the frame that the plane had in the single file and the file that
//! now holds it.

pub mod companion;
pub mod error;
pub mod filename;
pub mod model;
pub mod plane_index;
pub mod pretty;
