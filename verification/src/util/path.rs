//! File system path handling, through `std::path`, on paths held as strings.

use vstd::prelude::*;

verus! {

/// The extension of the path `path`, as `std::path::Path::extension` finds it.
pub uninterp spec fn spec_path_extension(path: Seq<char>) -> Option<Seq<char>>;

/// The final component of the path `path`, as `std::path::Path::file_name` finds it.
pub uninterp spec fn spec_path_file_name(path: Seq<char>) -> Option<Seq<char>>;

/// `path` with its file name replaced by `name`, as `std::path::PathBuf::set_file_name` does it.
pub uninterp spec fn spec_path_with_file_name(path: Seq<char>, name: Seq<char>) -> Seq<char>;

/// `path` with its extension replaced by `ext`, as `std::path::PathBuf::set_extension` does it.
pub uninterp spec fn spec_path_with_extension(path: Seq<char>, ext: Seq<char>) -> Seq<char>;

/// The extension of `path`.
///
/// Trusted: calls `std::path::Path::extension`, which is a function of the path alone. Its
/// documentation states that it extracts the extension of the file name, so a path with an
/// extension has a file name. A part of a UTF-8 path is UTF-8, so the conversion to `String`
/// loses nothing.
#[verifier::external_body]
pub(crate) fn path_extension(path: &str) -> (r: Option<String>)
    ensures
        r is Some <==> spec_path_extension(path@) is Some,
        r matches Some(e) ==> spec_path_extension(path@) == Some(e@),
        r is Some ==> spec_path_file_name(path@) is Some,
{
    match std::path::Path::new(path).extension() {
        Some(e) => Some(e.to_string_lossy().into_owned()),
        None => None,
    }
}

/// The final component of `path`.
///
/// Trusted: calls `std::path::Path::file_name`, which is a function of the path alone.
#[verifier::external_body]
pub(crate) fn path_file_name(path: &str) -> (r: Option<String>)
    ensures
        r is Some <==> spec_path_file_name(path@) is Some,
        r matches Some(n) ==> spec_path_file_name(path@) == Some(n@),
{
    match std::path::Path::new(path).file_name() {
        Some(n) => Some(n.to_string_lossy().into_owned()),
        None => None,
    }
}

/// `path` with its file name replaced by `name`.
///
/// Trusted: calls `std::path::PathBuf::set_file_name`, which is a function of its arguments.
#[verifier::external_body]
pub(crate) fn path_with_file_name(path: &str, name: &str) -> (r: String)
    ensures
        r@ == spec_path_with_file_name(path@, name@),
{
    let mut p = std::path::PathBuf::from(path);
    p.set_file_name(name);
    p.to_string_lossy().into_owned()
}

/// Whether `s` holds no character that is a path separator on some platform (`/` or `\`).
pub open spec fn has_no_separator(s: Seq<char>) -> bool {
    forall|i: int| 0 <= i < s.len() ==> #[trigger] s[i] != '/' && s[i] != '\\'
}

/// `path` with its extension replaced by `ext`.
///
/// Trusted: calls `std::path::PathBuf::set_extension`, which is a function of its arguments.
/// It panics when `ext` holds a path separator, so such an `ext` is not admitted.
#[verifier::external_body]
pub(crate) fn path_with_extension(path: &str, ext: &str) -> (r: String)
    requires
        has_no_separator(ext@),
    ensures
        r@ == spec_path_with_extension(path@, ext@),
{
    let mut p = std::path::PathBuf::from(path);
    p.set_extension(ext);
    p.to_string_lossy().into_owned()
}

} // verus!
