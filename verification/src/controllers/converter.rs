//! Conversion and renaming jobs: their settings records and the computation
//! of a renamed file name from an embedded capture timestamp.
use vstd::prelude::*;
use vstd::string::StrSliceExecFns;
use vstd::string::StringExecFns;

use crate::paths::extension_spec;
use crate::paths::file_extension;
use crate::paths::file_stem;
use crate::paths::stem_spec;
use crate::text::contains_char;
use crate::text::seq_contains_char;
use crate::text::trim_nuls;
use crate::text::trim_nuls_spec;
use crate::timestamp::chicago_wall_clock;
use crate::timestamp::exif_timestamp_valid;
use crate::timestamp::format_grouping;
use crate::timestamp::format_unique;
use crate::timestamp::grouping_spec;
use crate::timestamp::parse_exif_timestamp;
use crate::timestamp::unique_spec;
use crate::timestamp::DateTimeParts;

verus! {

/// Settings of a WebP conversion job.
pub struct ImageConverter {
    pub input_folder: String,
    pub output_folder: String,
    pub quality: u32,
}

impl ImageConverter {
    /// Assembles the settings record of a conversion job.
    pub fn new(input_folder: String, output_folder: String, quality: u32) -> (r: Self)
        ensures
            r.input_folder == input_folder,
            r.output_folder == output_folder,
            r.quality == quality,
    {
        ImageConverter { input_folder, output_folder, quality }
    }
}

/// Settings of a renaming job.
pub struct ImageRenamer {
    pub input_folder: String,
    pub output_folder: String,
    pub prefix: String,
    pub name: String,
}

impl ImageRenamer {
    /// Assembles the settings record of a renaming job.
    pub fn new(input_folder: String, output_folder: String, prefix: String, name: String) -> (r:
        Self)
        ensures
            r.input_folder == input_folder,
            r.output_folder == output_folder,
            r.prefix == prefix,
            r.name == name,
    {
        ImageRenamer { input_folder, output_folder, prefix, name }
    }
}

/// What went wrong while renaming a file from its capture timestamp.
#[derive(Clone, Copy, Debug, PartialEq, Eq, Structural)]
pub enum RenameError {
    /// The timestamp held a space yet was not a valid `YYYY:MM:DD HH:MM:SS`
    /// wall clock.
    InvalidTimestamp,
    /// The wall clock could not be placed in the America/Chicago time zone.
    TimezoneLookup,
}

impl RenameError {
    /// A short description of the failure.
    pub fn message(&self) -> (r: &'static str)
        ensures
            *self is InvalidTimestamp ==> r@ == "DateTime"@,
            *self is TimezoneLookup ==> r@ == "Timestamp"@,
    {
        match self {
            RenameError::InvalidTimestamp => "DateTime",
            RenameError::TimezoneLookup => "Timestamp",
        }
    }
}

/// The stem used when a file carries no usable timestamp: its own stem, or
/// `image` when that is empty.
pub open spec fn fallback_stem_spec(file_name: Seq<char>) -> Seq<char> {
    if stem_spec(file_name).len() == 0 {
        seq!['i', 'm', 'a', 'g', 'e']
    } else {
        stem_spec(file_name)
    }
}

/// The full fallback file name: the fallback stem with the old extension.
pub open spec fn fallback_name_spec(file_name: Seq<char>) -> Seq<char> {
    fallback_stem_spec(file_name) + seq!['.'] + extension_spec(file_name)
}

/// The stem of a renamed file with capture wall clock `local`: the prefix,
/// the grouping and uniqueness parts, and the configured name.
pub open spec fn timestamp_stem_spec(
    prefix: Seq<char>,
    name: Seq<char>,
    local: DateTimeParts,
) -> Seq<char> {
    prefix + grouping_spec(local) + seq!['_'] + unique_spec(local) + seq!['_'] + name
}

/// The full renamed file name: the timestamp stem with the old extension.
pub open spec fn timestamp_name_spec(
    prefix: Seq<char>,
    name: Seq<char>,
    local: DateTimeParts,
    file_name: Seq<char>,
) -> Seq<char> {
    timestamp_stem_spec(prefix, name, local) + seq!['.'] + extension_spec(file_name)
}

/// Builds the renamed stem for a file whose capture wall clock is `local`.
pub fn renamed_with_timestamp(prefix: &str, name: &str, local: DateTimeParts) -> (r: String)
    requires
        local.wf(),
    ensures
        r@ == timestamp_stem_spec(prefix@, name@, local),
{
    let mut out = prefix.to_owned();
    let grouping = format_grouping(local);
    out.append(grouping.as_str());
    out.append("_");
    let unique = format_unique(local);
    out.append(unique.as_str());
    out.append("_");
    out.append(name);
    proof {
        reveal_strlit("_");
        assert(("_")@ =~= seq!['_']);
        assert(out@ =~= timestamp_stem_spec(prefix@, name@, local));
    }
    out
}

/// Builds the fallback file name of a file with no usable timestamp.
pub fn fallback_file_name(file_name: &str) -> (r: String)
    ensures
        r@ == fallback_name_spec(file_name@),
{
    let stem = file_stem(file_name);
    let mut out = if stem.unicode_len() == 0 {
        let image: &str = "image";
        image.to_owned()
    } else {
        stem.to_owned()
    };
    out.append(".");
    out.append(file_extension(file_name));
    proof {
        reveal_strlit("image");
        reveal_strlit(".");
        assert(("image")@ =~= seq!['i', 'm', 'a', 'g', 'e']);
        assert((".")@ =~= seq!['.']);
        assert(out@ =~= fallback_name_spec(file_name@));
    }
    out
}

/// Computes the new name of one file.
///
/// A file with an EXIF timestamp whose NUL-trimmed value holds a space is
/// renamed from its capture wall clock, placed in the America/Chicago time
/// zone; a file without one keeps its stem (or `image` when that is empty).
/// The old extension is kept either way. A timestamp that holds a space but
/// is not a valid wall clock, or one that cannot be placed in the time
/// zone, is an error.
pub fn rename_file_name(
    exif_timestamp: Option<&str>,
    prefix: &str,
    name: &str,
    file_name: &str,
) -> (r: Result<String, RenameError>)
    ensures
        (match exif_timestamp {
            None => r matches Ok(out) && out@ == fallback_name_spec(file_name@),
            Some(s) => {
                let t = trim_nuls_spec(s@);
                if !seq_contains_char(t, ' ') {
                    r matches Ok(out) && out@ == fallback_name_spec(file_name@)
                } else if !exif_timestamp_valid(t) {
                    r matches Err(e) && e == RenameError::InvalidTimestamp
                } else {
                    ||| (r matches Err(e) && e == RenameError::TimezoneLookup)
                    ||| (r matches Ok(out) && exists|local: DateTimeParts|
                        local.wf() && out@ == timestamp_name_spec(
                            prefix@,
                            name@,
                            local,
                            file_name@,
                        ))
                }
            },
        }),
{
    match exif_timestamp {
        None => Ok(fallback_file_name(file_name)),
        Some(s) => {
            let trimmed = trim_nuls(s);
            if !contains_char(trimmed, ' ') {
                Ok(fallback_file_name(file_name))
            } else {
                match parse_exif_timestamp(trimmed) {
                    None => Err(RenameError::InvalidTimestamp),
                    Some(dt) => match chicago_wall_clock(dt) {
                        None => Err(RenameError::TimezoneLookup),
                        Some(local) => {
                            let mut out = renamed_with_timestamp(prefix, name, local);
                            out.append(".");
                            out.append(file_extension(file_name));
                            proof {
                                reveal_strlit(".");
                                assert((".")@ =~= seq!['.']);
                                assert(out@ =~= timestamp_name_spec(
                                    prefix@,
                                    name@,
                                    local,
                                    file_name@,
                                ));
                                assert(local.wf() && out@ == timestamp_name_spec(
                                    prefix@,
                                    name@,
                                    local,
                                    file_name@,
                                ));
                            }
                            Ok(out)
                        },
                    },
                }
            }
        },
    }
}

} // verus!
