//! Where cover art goes when the tag format cannot embed it: a file beside
//! the tagged one.

use vstd::prelude::*;

verus! {

/// What `Path::parent` returns for a path given as text: the path of the
/// directory above it, or nothing where the path is empty or ends in a root.
/// Paths are read by the rules of the platform that the library is built for.
pub uninterp spec fn parent_dir(path: Seq<char>) -> Option<Seq<char>>;

/// What `Path::join` returns for a directory and a path to add to it, both
/// given as text, by the rules of the platform that the library is built for.
pub uninterp spec fn joined_path(dir: Seq<char>, name: Seq<char>) -> Seq<char>;

/// The file name under which cover art is stored beside a tagged file.
pub open spec fn cover_file_name() -> Seq<char> {
    "cover.jpg"@
}

/// A file to be written: where, and what.
pub struct CoverFile {
    pub path: String,
    pub data: Vec<u8>,
}

/// Where the cover art of the file at `path` goes, with what is written
/// there: `cover.jpg` in the directory of `path`, or nothing where `path`
/// has no directory above it.
pub open spec fn cover_beside(path: Seq<char>, data: Seq<u8>) -> Option<(Seq<char>, Seq<u8>)> {
    match parent_dir(path) {
        Some(dir) => Some((joined_path(dir, cover_file_name()), data)),
        None => None,
    }
}

/// `Path::parent` on a path given as text, with the result as text again.
#[verifier::external_body]
pub(crate) fn path_parent(path: &str) -> (dir: Option<String>)
    ensures
        dir is Some <==> parent_dir(path@) is Some,
        dir matches Some(d) ==> parent_dir(path@) == Some(d@),
{
    std::path::Path::new(path).parent().map(|p| p.to_string_lossy().into_owned())
}

/// `Path::join` on a directory and a name given as text, with the result as
/// text again.
#[verifier::external_body]
pub(crate) fn path_join(dir: &str, name: &str) -> (path: String)
    ensures
        path@ == joined_path(dir@, name@),
{
    std::path::Path::new(dir).join(name).to_string_lossy().into_owned()
}

/// Decides where cover art goes once the directory of the tagged file is
/// known: into `cover.jpg` in that directory, unchanged, or nowhere where
/// there is no directory.
pub fn plan_cover(dir: Option<String>, data: Vec<u8>) -> (file: Option<CoverFile>)
    ensures
        dir is Some <==> file is Some,
        file matches Some(f) ==> f.path@ == joined_path(dir.unwrap()@, cover_file_name())
            && f.data@ == data@,
{
    match dir {
        Some(d) => {
            let path = path_join(d.as_str(), "cover.jpg");
            Some(CoverFile { path, data })
        },
        None => None,
    }
}

} // verus!
