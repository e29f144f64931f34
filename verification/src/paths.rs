//! File paths, taken apart and put together by `std::path`, and the rules by
//! which the executables and the output file are found.
//!
//! The three names below stand for what `std::path` computes under the path
//! conventions of the platform the library is built for.

use vstd::prelude::*;
use std::path::Path;
use crate::text::joined;

verus! {

/// What `Path::file_name` gives for `path`: its last component, if it has one.
pub uninterp spec fn path_file_name(path: Seq<char>) -> Option<Seq<char>>;

/// What `Path::file_stem` gives for `path`: its last component without the
/// extension, if it has a last component.
pub uninterp spec fn path_file_stem(path: Seq<char>) -> Option<Seq<char>>;

/// What `Path::join` gives for the directory `dir` and the path `name`.
pub uninterp spec fn path_join(dir: Seq<char>, name: Seq<char>) -> Seq<char>;

/// The name under which the encoding tool is installed.
pub open spec fn ffmpeg_name() -> Seq<char> {
    "ffmpeg"@
}

/// The name under which the probing tool is installed.
pub open spec fn ffprobe_name() -> Seq<char> {
    "ffprobe"@
}

/// The characters of a string that may be missing.
pub open spec fn given_text(s: Option<&str>) -> Option<Seq<char>> {
    match s {
        Some(t) => Some(t@),
        None => None,
    }
}

/// Where an executable is looked for: the copy beside the running
/// application where there is one, else the bare name, which leaves the
/// search to the system.
pub open spec fn located(name: Seq<char>, bin_dir: Option<Seq<char>>, bundled_exists: bool) -> Seq<
    char,
> {
    match bin_dir {
        Some(dir) => if bundled_exists {
            path_join(dir, name)
        } else {
            name
        },
        None => name,
    }
}

/// The stem under which a conversion's output is written: that of the
/// input, or `output` where the input path has none.
pub open spec fn output_stem(input_path: Seq<char>) -> Seq<char> {
    match path_file_stem(input_path) {
        Some(stem) => stem,
        None => "output"@,
    }
}

/// The file that a conversion of `input_path` writes into `output_dir`.
pub open spec fn output_path_of(input_path: Seq<char>, output_dir: Seq<char>) -> Seq<char> {
    path_join(output_dir, output_stem(input_path) + "_converted.mp4"@)
}

/// The name shown for a source file: its last component, or the whole path
/// where it has none.
pub open spec fn display_name(path: Seq<char>) -> Seq<char> {
    match path_file_name(path) {
        Some(name) => name,
        None => path,
    }
}

/// Calls `Path::file_name` on `path`. Trusted: the result is the one that
/// `path_file_name` names, as a string.
#[verifier::external_body]
fn file_name(path: &str) -> (r: Option<String>)
    ensures
        match r {
            Some(name) => path_file_name(path@) == Some(name@),
            None => path_file_name(path@) is None,
        },
{
    match Path::new(path).file_name() {
        Some(name) => Some(name.to_string_lossy().into_owned()),
        None => None,
    }
}

/// Calls `Path::file_stem` on `path`. Trusted: the result is the one that
/// `path_file_stem` names, as a string.
#[verifier::external_body]
fn file_stem(path: &str) -> (r: Option<String>)
    ensures
        match r {
            Some(stem) => path_file_stem(path@) == Some(stem@),
            None => path_file_stem(path@) is None,
        },
{
    match Path::new(path).file_stem() {
        Some(stem) => Some(stem.to_string_lossy().into_owned()),
        None => None,
    }
}

/// Calls `Path::join` on `dir` with `name`. Trusted: the result is the one
/// that `path_join` names, as a string.
#[verifier::external_body]
fn join(dir: &str, name: &str) -> (r: String)
    ensures
        r@ == path_join(dir@, name@),
{
    Path::new(dir).join(name).to_string_lossy().into_owned()
}

/// The path at which the copy of `name` that ships with the application
/// would lie, given the directory of the running executable.
pub fn bundled_candidate(bin_dir: &str, name: &str) -> (r: String)
    ensures
        r@ == path_join(bin_dir@, name@),
{
    join(bin_dir, name)
}

/// Decides where the executable `name` is looked for. `bin_dir` is the
/// directory of the running executable, if it is known; `bundled_exists`
/// says whether a file lies at `bundled_candidate(bin_dir, name)`.
pub fn locate(name: &str, bin_dir: Option<&str>, bundled_exists: bool) -> (r: String)
    ensures
        r@ == located(name@, given_text(bin_dir), bundled_exists),
{
    match bin_dir {
        Some(dir) => {
            if bundled_exists {
                join(dir, name)
            } else {
                name.to_owned()
            }
        },
        None => name.to_owned(),
    }
}

/// Where the encoding tool is looked for.
pub fn get_ffmpeg_path(bin_dir: Option<&str>, bundled_exists: bool) -> (r: String)
    ensures
        r@ == located(ffmpeg_name(), given_text(bin_dir), bundled_exists),
{
    locate("ffmpeg", bin_dir, bundled_exists)
}

/// Where the probing tool is looked for.
pub fn get_ffprobe_path(bin_dir: Option<&str>, bundled_exists: bool) -> (r: String)
    ensures
        r@ == located(ffprobe_name(), given_text(bin_dir), bundled_exists),
{
    locate("ffprobe", bin_dir, bundled_exists)
}

/// The name shown for the source file at `path`.
pub fn file_name_of(path: &str) -> (r: String)
    ensures
        r@ == display_name(path@),
{
    match file_name(path) {
        Some(name) => name,
        None => path.to_owned(),
    }
}

/// The file that a conversion of `input_path` writes into `output_dir`:
/// the input's stem with `_converted.mp4` behind it.
pub fn output_path(input_path: &str, output_dir: &str) -> (r: String)
    ensures
        r@ == output_path_of(input_path@, output_dir@),
{
    let stem = match file_stem(input_path) {
        Some(stem) => stem,
        None => "output".to_owned(),
    };
    let name = joined(stem.as_str(), "_converted.mp4");
    join(output_dir, name.as_str())
}

} // verus!
