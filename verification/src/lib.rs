//! Batch image utility core: menu dispatch, job configuration, output path
//! construction, and capture-timestamp file renaming.

pub mod cli;
pub mod command;
pub mod controllers;
pub mod paths;
pub mod text;
pub mod timestamp;
