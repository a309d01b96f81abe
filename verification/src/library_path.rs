use vstd::prelude::*;

use std::path::PathBuf;

verus! {

/// `std::path::PathBuf`, the path a caller hands to the loader.
#[verifier::external_type_specification]
#[verifier::external_body]
pub struct ExPathBuf(PathBuf);

/// The platform encoding of `path` (`OsStr::as_encoded_bytes` of `PathBuf::as_os_str`):
/// the bytes a `PathBuf` holds.
pub uninterp spec fn path_encoding(path: PathBuf) -> Seq<u8>;

/// Whether `std::path::Path::is_absolute` holds of the path whose platform encoding is
/// `encoded`.
pub uninterp spec fn path_is_absolute(encoded: Seq<u8>) -> bool;

/// The components (`Path::components`) of the path whose platform encoding is `encoded`,
/// each as std's `Component` equality sees it. On Unix a component is the bytes of
/// `Component::as_os_str`; on other platforms a prefix is seen as std parses it.
pub uninterp spec fn path_components(encoded: Seq<u8>) -> Seq<Seq<u8>>;

/// Whether std's `Path` equality holds between the paths whose platform encodings are
/// `left` and `right`: it compares the paths component by component.
pub open spec fn paths_equal(left: Seq<u8>, right: Seq<u8>) -> bool {
    path_components(left) == path_components(right)
}

/// A library path together with its platform encoding, which is its view; the type
/// invariant keeps the two in step.
#[derive(Debug)]
pub struct LibraryPath {
    path: PathBuf,
    encoded: Vec<u8>,
}

impl View for LibraryPath {
    type V = Seq<u8>;

    closed spec fn view(&self) -> Seq<u8> {
        self.encoded@
    }
}

/// Copies the platform encoding of `path` with `OsStr::as_encoded_bytes` (of
/// `PathBuf::as_os_str`).
#[verifier::external_body]
fn encoded_bytes(path: &PathBuf) -> (bytes: Vec<u8>)
    ensures
        bytes@ == path_encoding(*path),
{
    path.as_os_str().as_encoded_bytes().to_vec()
}

/// Calls `Path::is_absolute`.
#[verifier::external_body]
fn path_buf_is_absolute(path: &PathBuf) -> (absolute: bool)
    ensures
        absolute == path_is_absolute(path_encoding(*path)),
{
    path.is_absolute()
}

/// Compares two paths with `PathBuf`'s `==`, which compares their components.
#[verifier::external_body]
fn path_bufs_equal(left: &PathBuf, right: &PathBuf) -> (equal: bool)
    ensures
        equal == (path_components(path_encoding(*left)) == path_components(
            path_encoding(*right),
        )),
{
    left == right
}

/// Calls `PathBuf::clone`, which copies the path's `OsString`: the copy is the same path.
#[verifier::external_body]
fn clone_path_buf(path: &PathBuf) -> (copy: PathBuf)
    ensures
        copy == *path,
{
    path.clone()
}

/// Whether the path is absolute (`Path::is_absolute`).
pub(crate) fn is_absolute_path(path: &LibraryPath) -> (absolute: bool)
    ensures
        absolute == path_is_absolute(path@),
{
    proof {
        use_type_invariant(path);
    }
    path_buf_is_absolute(&path.path)
}

/// Whether the two paths are equal as std compares paths.
pub(crate) fn same_path(left: &LibraryPath, right: &LibraryPath) -> (equal: bool)
    ensures
        equal == paths_equal(left@, right@),
{
    proof {
        use_type_invariant(left);
        use_type_invariant(right);
    }
    path_bufs_equal(&left.path, &right.path)
}

/// A second `LibraryPath` for the same path, with the same encoding.
pub(crate) fn duplicate(path: &LibraryPath) -> (copy: LibraryPath)
    ensures
        copy@ == path@,
        copy.path_buf() == path.path_buf(),
{
    proof {
        use_type_invariant(path);
    }
    let encoded = path.encoded.clone();
    assert(encoded@ =~= path.encoded@);
    LibraryPath { path: clone_path_buf(&path.path), encoded }
}

impl LibraryPath {
    /// The encoding held is the encoding of the path held.
    #[verifier::type_invariant]
    spec fn encoding_matches(self) -> bool {
        self.encoded@ == path_encoding(self.path)
    }

    /// The `PathBuf` this value wraps.
    pub closed spec fn path_buf(&self) -> PathBuf {
        self.path
    }

    /// Wraps a caller-selected library path with its platform encoding.
    pub fn new(path: PathBuf) -> (library_path: LibraryPath)
        ensures
            library_path.path_buf() == path,
            library_path@ == path_encoding(path),
    {
        let encoded = encoded_bytes(&path);
        LibraryPath { path, encoded }
    }

    /// The wrapped path.
    pub fn as_path_buf(&self) -> (path: &PathBuf)
        ensures
            *path == self.path_buf(),
    {
        &self.path
    }

    /// Gives back the wrapped path.
    pub fn into_path_buf(self) -> (path: PathBuf)
        ensures
            path == self.path_buf(),
    {
        self.path
    }

    /// The platform encoding of the path.
    pub fn encoded(&self) -> (bytes: &[u8])
        ensures
            bytes@ == self@,
            bytes@ == path_encoding(self.path_buf()),
    {
        proof {
            use_type_invariant(self);
        }
        self.encoded.as_slice()
    }
}

} // verus!
