//! How cached images are named on disk.
//!
//! A cached file is `<dir>/wallhaven-<id>.<ext>`, where `<ext>` follows from
//! the image's MIME type. The existence of that file is the only signal of a
//! cache hit, so the derivation must be a function of its inputs alone.

use vstd::prelude::*;
use crate::text::same_text;

verus! {

/// The prefix of every cached file name.
pub const FILE_PREFIX: &'static str = "wallhaven";

/// What `str::to_lowercase` returns for the given characters.
pub uninterp spec fn lower_of(s: Seq<char>) -> Seq<char>;

/// Relies on `str::to_lowercase`: its result depends on the characters alone.
#[verifier::external_body]
fn lowercase(s: &str) -> (r: String)
    ensures
        r@ == lower_of(s@),
{
    s.to_lowercase()
}

/// File extension for a MIME type that is already in lower case.
pub open spec fn extension_of(mime: Seq<char>) -> Seq<char> {
    if mime == "image/jpeg"@ {
        "jpg"@
    } else if mime == "image/png"@ {
        "png"@
    } else if mime == "image/gif"@ {
        "gif"@
    } else if mime == "image/webp"@ {
        "webp"@
    } else {
        "jpg"@
    }
}

/// Name of the cached file of the image `id` with extension `ext`.
pub open spec fn file_name_of(id: Seq<char>, ext: Seq<char>) -> Seq<char> {
    FILE_PREFIX@ + "-"@ + id + "."@ + ext
}

/// Whether `c` ends a directory path.
pub open spec fn is_separator(c: char) -> bool {
    c == '/' || c == '\\'
}

/// `name` placed inside the directory `dir`.
pub open spec fn joined(dir: Seq<char>, name: Seq<char>) -> Seq<char> {
    if dir.len() == 0 {
        name
    } else if is_separator(dir.last()) {
        dir + name
    } else {
        dir + "/"@ + name
    }
}

/// Path of the cached file of image `id`, whose MIME type is `mime`, in `dir`.
pub open spec fn cache_path_of(dir: Seq<char>, id: Seq<char>, mime: Seq<char>) -> Seq<char> {
    joined(dir, file_name_of(id, extension_of(lower_of(mime))))
}

/// File extension for a MIME type already in lower case: `jpg`, `png`,
/// `gif` or `webp` for the four known image types, `jpg` for any other.
pub fn extension_for_lowered(mime: &str) -> (r: &'static str)
    ensures
        r@ == extension_of(mime@),
{
    if same_text(mime, "image/jpeg") {
        "jpg"
    } else if same_text(mime, "image/png") {
        "png"
    } else if same_text(mime, "image/gif") {
        "gif"
    } else if same_text(mime, "image/webp") {
        "webp"
    } else {
        "jpg"
    }
}

/// File extension for a MIME type, compared without regard to case.
pub fn get_file_extension(file_type: &str) -> (r: &'static str)
    ensures
        r@ == extension_of(lower_of(file_type@)),
{
    let lowered = lowercase(file_type);
    extension_for_lowered(lowered.as_str())
}

/// Name of the cached file of image `id` with extension `ext`.
pub fn file_name_for(id: &str, ext: &str) -> (r: String)
    ensures
        r@ == file_name_of(id@, ext@),
{
    let name = String::from_str(FILE_PREFIX);
    let name = name.concat("-");
    let name = name.concat(id);
    let name = name.concat(".");
    name.concat(ext)
}

/// `name` placed inside the directory `dir`, with one `/` between them
/// unless `dir` is empty or already ends with a separator.
pub fn join_path(dir: &str, name: &str) -> (r: String)
    ensures
        r@ == joined(dir@, name@),
{
    let n = dir.unicode_len();
    if n == 0 {
        return String::from_str(name);
    }
    let last = dir.get_char(n - 1);
    let base = String::from_str(dir);
    if last == '/' || last == '\\' {
        base.concat(name)
    } else {
        base.concat("/").concat(name)
    }
}

/// Path of the cached file of image `id`, whose MIME type is `file_type`, in `dir`.
pub fn cache_path(dir: &str, id: &str, file_type: &str) -> (r: String)
    ensures
        r@ == cache_path_of(dir@, id@, file_type@),
{
    let ext = get_file_extension(file_type);
    let name = file_name_for(id, ext);
    join_path(dir, name.as_str())
}

} // verus!
