//! Compression jobs: the settings record handed to the folder compressor.
use vstd::prelude::*;

verus! {

/// Settings of a folder compression job.
pub struct ImageCompressor {
    pub input_folder: String,
    pub output_folder: String,
    pub quality: u32,
}

impl ImageCompressor {
    /// Assembles the settings record of a compression job.
    pub fn new(input_folder: String, output_folder: String, quality: u32) -> (r: Self)
        ensures
            r.input_folder == input_folder,
            r.output_folder == output_folder,
            r.quality == quality,
    {
        ImageCompressor { input_folder, output_folder, quality }
    }
}

} // verus!
