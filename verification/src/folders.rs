//! Sorting the files found in a folder chosen for import into playable
//! videos, video-like files that cannot be played, and the rest.
use vstd::prelude::*;
use crate::course::str_equal;
use crate::text::{to_lowercase_str, unicode_lowercase};

verus! {

/// A file found while walking a folder: its path, its extension where it
/// has one that is valid Unicode, and its size where it could be read.
#[derive(Clone, Debug, PartialEq)]
pub struct ScannedFile {
    pub path: String,
    pub extension: Option<String>,
    pub size: Option<u64>,
}

/// What a folder holds for import.
#[derive(Clone, Debug, PartialEq)]
pub struct FolderValidation {
    pub is_valid: bool,
    pub video_count: usize,
    pub supported_files: Vec<String>,
    pub unsupported_files: Vec<String>,
    pub total_size: u64,
    pub error_message: Option<String>,
}

/// Extensions of playable videos (lower case).
pub open spec fn is_supported_extension(e: Seq<char>) -> bool {
    e == "mp4"@ || e == "avi"@ || e == "mkv"@ || e == "mov"@ || e == "wmv"@ || e == "flv"@ || e
        == "webm"@ || e == "m4v"@ || e == "mpg"@ || e == "mpeg"@ || e == "3gp"@ || e == "ogv"@
        || e == "ts"@ || e == "mts"@ || e == "m2ts"@
}

/// Extensions of video formats that cannot be played (lower case).
pub open spec fn is_video_like(e: Seq<char>) -> bool {
    e == "rm"@ || e == "rmvb"@ || e == "asf"@ || e == "divx"@ || e == "vob"@ || e == "dat"@ || e
        == "amv"@ || e == "f4v"@ || e == "f4p"@ || e == "f4a"@ || e == "f4b"@ || e == "mod"@ || e
        == "tod"@ || e == "mxf"@
}

/// Whether a lower-case extension is one of a playable video.
pub fn is_supported_video_extension(ext: &str) -> (r: bool)
    ensures
        r == is_supported_extension(ext@),
{
    str_equal(ext, "mp4") || str_equal(ext, "avi") || str_equal(ext, "mkv") || str_equal(ext, "mov")
        || str_equal(ext, "wmv") || str_equal(ext, "flv") || str_equal(ext, "webm") || str_equal(
        ext,
        "m4v",
    ) || str_equal(ext, "mpg") || str_equal(ext, "mpeg") || str_equal(ext, "3gp") || str_equal(
        ext,
        "ogv",
    ) || str_equal(ext, "ts") || str_equal(ext, "mts") || str_equal(ext, "m2ts")
}

/// Whether a lower-case extension is one of a video format that cannot be
/// played.
pub fn is_video_like_extension(ext: &str) -> (r: bool)
    ensures
        r == is_video_like(ext@),
{
    str_equal(ext, "rm") || str_equal(ext, "rmvb") || str_equal(ext, "asf") || str_equal(ext, "divx")
        || str_equal(ext, "vob") || str_equal(ext, "dat") || str_equal(ext, "amv") || str_equal(
        ext,
        "f4v",
    ) || str_equal(ext, "f4p") || str_equal(ext, "f4a") || str_equal(ext, "f4b") || str_equal(
        ext,
        "mod",
    ) || str_equal(ext, "tod") || str_equal(ext, "mxf")
}

/// Paths of the playable files, in order.
pub open spec fn supported_paths(files: Seq<ScannedFile>) -> Seq<Seq<char>>
    decreases files.len(),
{
    if files.len() == 0 {
        seq![]
    } else {
        let rest = supported_paths(files.drop_last());
        let f = files.last();
        if f.extension matches Some(e) && is_supported_extension(unicode_lowercase(e@)) {
            rest.push(f.path@)
        } else {
            rest
        }
    }
}

/// Paths of the video-like files that cannot be played, in order.
pub open spec fn unsupported_paths(files: Seq<ScannedFile>) -> Seq<Seq<char>>
    decreases files.len(),
{
    if files.len() == 0 {
        seq![]
    } else {
        let rest = unsupported_paths(files.drop_last());
        let f = files.last();
        if f.extension matches Some(e) && !is_supported_extension(unicode_lowercase(e@))
            && is_video_like(unicode_lowercase(e@)) {
            rest.push(f.path@)
        } else {
            rest
        }
    }
}

/// Total size of the files that have an extension and a known size.
pub open spec fn counted_size(files: Seq<ScannedFile>) -> nat
    decreases files.len(),
{
    if files.len() == 0 {
        0
    } else {
        counted_size(files.drop_last()) + match (files.last().extension, files.last().size) {
            (Some(_), Some(s)) => s as nat,
            _ => 0nat,
        }
    }
}

/// A prefix of the files never counts more bytes than all of them.
pub proof fn lemma_counted_size_prefix(files: Seq<ScannedFile>, k: int)
    requires
        0 <= k <= files.len(),
    ensures
        counted_size(files.subrange(0, k)) <= counted_size(files),
    decreases files.len() - k,
{
    if k < files.len() {
        lemma_counted_size_prefix(files, k + 1);
        assert(files.subrange(0, k + 1).drop_last() =~= files.subrange(0, k));
    } else {
        assert(files.subrange(0, k) =~= files);
    }
}

fn invalid_folder(message: &str) -> (v: FolderValidation)
    ensures
        !v.is_valid,
        v.video_count == 0,
        v.supported_files@.len() == 0,
        v.unsupported_files@.len() == 0,
        v.total_size == 0,
        v.error_message matches Some(m) && m@ == message@,
{
    FolderValidation {
        is_valid: false,
        video_count: 0,
        supported_files: Vec::new(),
        unsupported_files: Vec::new(),
        total_size: 0,
        error_message: Some(String::from_str(message)),
    }
}

/// Sums up a folder walk: a missing path or a path that is not a folder
/// is reported as such; otherwise files are sorted by their lower-cased
/// extension, the sizes of files with an extension are added up, and the
/// folder is valid when it holds a playable video. The total size must
/// fit in 64 bits.
pub fn summarize_folder_scan(exists: bool, is_dir: bool, files: &Vec<ScannedFile>) -> (v:
    FolderValidation)
    requires
        counted_size(files@) <= u64::MAX,
    ensures
        !exists ==> !v.is_valid && v.video_count == 0 && v.total_size == 0
            && v.supported_files@.len() == 0 && v.unsupported_files@.len() == 0
            && (v.error_message matches Some(m) && m@ == "Folder does not exist"@),
        exists && !is_dir ==> !v.is_valid && v.video_count == 0 && v.total_size == 0
            && v.supported_files@.len() == 0 && v.unsupported_files@.len() == 0
            && (v.error_message matches Some(m) && m@ == "Path is not a directory"@),
        exists && is_dir ==> {
            &&& v.supported_files@.map_values(|p: String| p@) == supported_paths(files@)
            &&& v.unsupported_files@.map_values(|p: String| p@) == unsupported_paths(files@)
            &&& v.total_size == counted_size(files@)
            &&& v.video_count == supported_paths(files@).len()
            &&& v.is_valid == (v.video_count > 0)
            &&& if v.is_valid {
                v.error_message is None
            } else {
                v.error_message matches Some(m) && m@
                    == "No supported video files found in the selected folder"@
            }
        },
{
    if !exists {
        return invalid_folder("Folder does not exist");
    }
    if !is_dir {
        return invalid_folder("Path is not a directory");
    }
    let mut supported: Vec<String> = Vec::new();
    let mut unsupported: Vec<String> = Vec::new();
    let mut total_size: u64 = 0;
    let mut i: usize = 0;
    while i < files.len()
        invariant
            i <= files@.len(),
            counted_size(files@) <= u64::MAX,
            supported@.map_values(|p: String| p@) == supported_paths(files@.subrange(0, i as int)),
            unsupported@.map_values(|p: String| p@) == unsupported_paths(
                files@.subrange(0, i as int),
            ),
            total_size == counted_size(files@.subrange(0, i as int)),
        decreases files.len() - i,
    {
        let f = &files[i];
        proof {
            assert(files@.subrange(0, i + 1).drop_last() =~= files@.subrange(0, i as int));
            assert(files@.subrange(0, i + 1).last() == *f);
            lemma_counted_size_prefix(files@, i + 1);
        }
        match &f.extension {
            Some(ext) => {
                let lower = to_lowercase_str(ext.as_str());
                match f.size {
                    Some(s) => {
                        total_size = total_size + s;
                    },
                    None => {},
                }
                if is_supported_video_extension(lower.as_str()) {
                    let ghost before = supported@;
                    supported.push(f.path.clone());
                    assert(supported@.map_values(|p: String| p@) =~= before.map_values(
                        |p: String| p@,
                    ).push(f.path@));
                } else if is_video_like_extension(lower.as_str()) {
                    let ghost before = unsupported@;
                    unsupported.push(f.path.clone());
                    assert(unsupported@.map_values(|p: String| p@) =~= before.map_values(
                        |p: String| p@,
                    ).push(f.path@));
                }
            },
            None => {},
        }
        i = i + 1;
    }
    assert(files@.subrange(0, files@.len() as int) =~= files@);
    let video_count = supported.len();
    let is_valid = video_count > 0;
    let error_message = if !is_valid {
        Some(String::from_str("No supported video files found in the selected folder"))
    } else {
        None
    };
    FolderValidation {
        is_valid,
        video_count,
        supported_files: supported,
        unsupported_files: unsupported,
        total_size,
        error_message,
    }
}

} // verus!
