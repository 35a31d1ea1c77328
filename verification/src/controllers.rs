//! The per-operation controllers: compression, conversion and renaming.

pub mod compressor;
pub mod converter;
