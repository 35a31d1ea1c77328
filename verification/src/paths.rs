//! Verified path-string construction: joining a folder with a file name and
//! splitting a file name into stem and extension.
//!
//! Paths are kept as plain UTF-8 strings; only their textual shape is modeled
//! here, never the filesystem.
use vstd::prelude::*;
use vstd::string::StrSliceExecFns;
use vstd::string::StringExecFns;

verus! {

/// Index of the last `.` in `s`, or `-1` when none occurs.
pub open spec fn last_dot_index(s: Seq<char>) -> int
    decreases s.len(),
{
    if s.len() == 0 {
        -1
    } else if s[s.len() - 1] == '.' {
        s.len() - 1
    } else {
        last_dot_index(s.drop_last())
    }
}

/// The stem of a file name: everything before the last `.`, except that a
/// name whose only `.` is its first character (or that has none) is its own
/// stem.
pub open spec fn stem_spec(s: Seq<char>) -> Seq<char> {
    if last_dot_index(s) > 0 {
        s.subrange(0, last_dot_index(s))
    } else {
        s
    }
}

/// The extension of a file name: everything after the last `.`, or empty
/// when the name has no extension.
pub open spec fn extension_spec(s: Seq<char>) -> Seq<char> {
    if last_dot_index(s) > 0 {
        s.subrange(last_dot_index(s) + 1, s.len() as int)
    } else {
        Seq::<char>::empty()
    }
}

/// A folder path joined with a relative file name: a `/` is inserted unless
/// the folder is empty or already ends with one.
pub open spec fn join_spec(folder: Seq<char>, name: Seq<char>) -> Seq<char> {
    if folder.len() == 0 {
        name
    } else if folder[folder.len() - 1] == '/' {
        folder + name
    } else {
        folder + seq!['/'] + name
    }
}

/// The last-dot index is always in range, and where it is not `-1` it
/// points at a `.`.
pub proof fn lemma_last_dot_in_range(s: Seq<char>)
    ensures
        -1 <= last_dot_index(s) < s.len(),
        last_dot_index(s) >= 0 ==> s[last_dot_index(s)] == '.',
    decreases s.len(),
{
    if s.len() > 0 && s[s.len() - 1] != '.' {
        lemma_last_dot_in_range(s.drop_last());
    }
}

/// Splitting a file name that has an extension into stem and extension
/// loses nothing: stem, `.` and extension together are the name again.
pub proof fn lemma_stem_extension_recompose(s: Seq<char>)
    requires
        last_dot_index(s) > 0,
    ensures
        stem_spec(s) + seq!['.'] + extension_spec(s) == s,
{
    lemma_last_dot_in_range(s);
    assert(stem_spec(s) + seq!['.'] + extension_spec(s) =~= s);
}

proof fn lemma_last_dot_at(s: Seq<char>, d: int)
    requires
        0 <= d < s.len(),
        s[d] == '.',
        forall|j: int| d < j < s.len() ==> s[j] != '.',
    ensures
        last_dot_index(s) == d,
    decreases s.len(),
{
    if d == s.len() - 1 {
    } else {
        assert(s[s.len() - 1] != '.');
        lemma_last_dot_at(s.drop_last(), d);
    }
}

proof fn lemma_no_dot(s: Seq<char>)
    requires
        forall|j: int| 0 <= j < s.len() ==> s[j] != '.',
    ensures
        last_dot_index(s) == -1,
    decreases s.len(),
{
    if s.len() > 0 {
        lemma_no_dot(s.drop_last());
    }
}

/// Position just past the last `.` of `name`, or `0` when it has none.
fn scan_last_dot(name: &str) -> (r: usize)
    ensures
        r == last_dot_index(name@) + 1,
        r <= name@.len(),
{
    let len = name.unicode_len();
    let mut i: usize = len;
    while i > 0
        invariant
            len == name@.len(),
            i <= len,
            forall|j: int| i <= j < len ==> name@[j] != '.',
        decreases i,
    {
        if name.get_char(i - 1) == '.' {
            proof {
                lemma_last_dot_at(name@, i - 1);
            }
            return i;
        }
        i -= 1;
    }
    proof {
        lemma_no_dot(name@);
    }
    0
}

/// The stem of a file name, before the last `.`; a leading `.` alone does
/// not begin an extension.
pub fn file_stem(name: &str) -> (r: &str)
    ensures
        r@ == stem_spec(name@),
{
    let dot_end = scan_last_dot(name);
    if dot_end > 1 {
        name.substring_char(0, dot_end - 1)
    } else {
        name
    }
}

/// The extension of a file name, after the last `.`, empty when there is
/// none.
pub fn file_extension(name: &str) -> (r: &str)
    ensures
        r@ == extension_spec(name@),
{
    let dot_end = scan_last_dot(name);
    if dot_end > 1 {
        name.substring_char(dot_end, name.unicode_len())
    } else {
        name.substring_char(0, 0)
    }
}

/// Joins a folder path and a relative file name with a `/` separator.
pub fn join_path(folder: &str, name: &str) -> (r: String)
    ensures
        r@ == join_spec(folder@, name@),
{
    let len = folder.unicode_len();
    if len == 0 {
        name.to_owned()
    } else if folder.get_char(len - 1) == '/' {
        let mut out = folder.to_owned();
        out.append(name);
        out
    } else {
        let mut out = folder.to_owned();
        out.append("/");
        out.append(name);
        proof {
            reveal_strlit("/");
            assert(("/")@ =~= seq!['/']);
            assert(out@ =~= join_spec(folder@, name@));
        }
        out
    }
}

/// The name an image file takes after conversion: its stem with the `webp`
/// extension in place of the old one.
pub fn webp_file_name(name: &str) -> (r: String)
    ensures
        r@ == stem_spec(name@) + ".webp"@,
{
    let stem = file_stem(name);
    let mut out = stem.to_owned();
    out.append(".webp");
    out
}

/// The full output path of a converted image: the output folder joined with
/// the input file's name under the `webp` extension.
pub fn webp_target_path(output_folder: &str, file_name: &str) -> (r: String)
    ensures
        r@ == join_spec(output_folder@, stem_spec(file_name@) + ".webp"@),
{
    let converted = webp_file_name(file_name);
    join_path(output_folder, converted.as_str())
}

} // verus!
