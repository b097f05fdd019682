//! Renders pages of PDF documents into PNG images and plain text for a viewer.

pub mod error;
pub mod geometry;
pub mod options;
pub mod payload;
pub mod text;
pub mod engine;
pub mod registry;
