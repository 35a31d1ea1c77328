//! The command-line commands, how they dispatch, and the builders of the
//! job settings they carry.
use vstd::prelude::*;
use vstd::string::StringExecFns;

verus! {

/// A command given on the command line.
pub enum Command {
    /// Compress a folder of JPEG images at the given quality.
    Compress { quality: u32, path: String },
    /// Convert a folder of JPEG images to WebP at the given quality.
    Convert { quality: u32, path: String },
}

/// What the program does for a command once the path has been examined.
pub enum Action {
    /// The given path is not a directory: report it and do nothing.
    RejectNotDirectory,
    /// Run the folder compression job.
    Compress { quality: u32, path: String },
    /// Run the WebP conversion job.
    Convert { quality: u32, path: String },
}

/// Decides what a command does: a command whose path is not a directory is
/// rejected, any other runs its job.
pub fn plan(command: Command, path_is_dir: bool) -> (r: Action)
    ensures
        (match command {
            Command::Compress { quality, path } => r == (if path_is_dir {
                Action::Compress { quality, path }
            } else {
                Action::RejectNotDirectory
            }),
            Command::Convert { quality, path } => r == (if path_is_dir {
                Action::Convert { quality, path }
            } else {
                Action::RejectNotDirectory
            }),
        }),
{
    if !path_is_dir {
        return Action::RejectNotDirectory;
    }
    match command {
        Command::Compress { quality, path } => Action::Compress { quality, path },
        Command::Convert { quality, path } => Action::Convert { quality, path },
    }
}

/// The folder that compressed images are written to: `comp` under the
/// pictures directory.
pub fn compress_output_folder(picture_dir: &str) -> (r: String)
    ensures
        r@ == picture_dir@ + "/comp"@,
{
    let mut out = picture_dir.to_owned();
    out.append("/comp");
    out
}

/// The folder that converted images are written to: `webps` under the
/// pictures directory.
pub fn webp_output_folder(picture_dir: &str) -> (r: String)
    ensures
        r@ == picture_dir@ + "/webps"@,
{
    let mut out = picture_dir.to_owned();
    out.append("/webps");
    out
}

/// Settings of the compression job started from the command line.
pub struct ImageCompressor {
    pub input_folder: String,
    pub output_folder: String,
    pub quality: u32,
}

/// Builds the settings of a command-line compression job field by field.
pub struct ImageCompressorBuilder {
    pub input_folder: String,
    pub output_folder: String,
    pub quality: u32,
}

impl ImageCompressorBuilder {
    /// An empty builder: empty folders and zero quality.
    pub fn new() -> (r: Self)
        ensures
            r.input_folder@ == Seq::<char>::empty(),
            r.output_folder@ == Seq::<char>::empty(),
            r.quality == 0,
    {
        ImageCompressorBuilder {
            input_folder: String::new(),
            output_folder: String::new(),
            quality: 0,
        }
    }

    /// Sets the folder the images are read from.
    pub fn input_folder(self, input_folder: String) -> (r: Self)
        ensures
            r.input_folder == input_folder,
            r.output_folder == self.output_folder,
            r.quality == self.quality,
    {
        ImageCompressorBuilder { input_folder, ..self }
    }

    /// Sets the folder the compressed images are written to.
    pub fn output_folder(self, output_folder: String) -> (r: Self)
        ensures
            r.input_folder == self.input_folder,
            r.output_folder == output_folder,
            r.quality == self.quality,
    {
        ImageCompressorBuilder { output_folder, ..self }
    }

    /// Sets the quality of the compressed images.
    pub fn quality(self, quality: u32) -> (r: Self)
        ensures
            r.input_folder == self.input_folder,
            r.output_folder == self.output_folder,
            r.quality == quality,
    {
        ImageCompressorBuilder { quality, ..self }
    }

    /// Assembles the settings record from the fields set so far.
    pub fn build(self) -> (r: ImageCompressor)
        ensures
            r.input_folder == self.input_folder,
            r.output_folder == self.output_folder,
            r.quality == self.quality,
    {
        ImageCompressor {
            input_folder: self.input_folder,
            output_folder: self.output_folder,
            quality: self.quality,
        }
    }
}

/// Settings of the conversion job started from the command line.
pub struct ImageConverter {
    pub input_folder: String,
    pub output_folder: String,
    pub quality: u32,
}

/// Builds the settings of a command-line conversion job field by field.
pub struct ImageConverterBuilder {
    pub input_folder: String,
    pub output_folder: String,
    pub quality: u32,
}

impl ImageConverterBuilder {
    /// An empty builder: empty folders and zero quality.
    pub fn new() -> (r: Self)
        ensures
            r.input_folder@ == Seq::<char>::empty(),
            r.output_folder@ == Seq::<char>::empty(),
            r.quality == 0,
    {
        ImageConverterBuilder {
            input_folder: String::new(),
            output_folder: String::new(),
            quality: 0,
        }
    }

    /// Sets the folder the images are read from.
    pub fn input_folder(self, input_folder: String) -> (r: Self)
        ensures
            r.input_folder == input_folder,
            r.output_folder == self.output_folder,
            r.quality == self.quality,
    {
        ImageConverterBuilder { input_folder, ..self }
    }

    /// Sets the folder the converted images are written to.
    pub fn output_folder(self, output_folder: String) -> (r: Self)
        ensures
            r.input_folder == self.input_folder,
            r.output_folder == output_folder,
            r.quality == self.quality,
    {
        ImageConverterBuilder { output_folder, ..self }
    }

    /// Sets the quality of the converted images.
    pub fn quality(self, quality: u32) -> (r: Self)
        ensures
            r.input_folder == self.input_folder,
            r.output_folder == self.output_folder,
            r.quality == quality,
    {
        ImageConverterBuilder { quality, ..self }
    }

    /// Assembles the settings record from the fields set so far.
    pub fn build(self) -> (r: ImageConverter)
        ensures
            r.input_folder == self.input_folder,
            r.output_folder == self.output_folder,
            r.quality == self.quality,
    {
        ImageConverter {
            input_folder: self.input_folder,
            output_folder: self.output_folder,
            quality: self.quality,
        }
    }
}

} // verus!
