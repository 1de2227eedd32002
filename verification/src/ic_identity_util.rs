//! Helper methods to manage identity

use std::path::{Path, PathBuf};
use vstd::prelude::*;

verus! {

#[verifier::external_type_specification]
#[verifier::external_body]
pub struct ExPathBuf(PathBuf);

#[verifier::external_type_specification]
#[verifier::external_body]
pub struct ExPath(Path);

/// What a path holds, as text: what `to_string_lossy` shows of it.
pub uninterp spec fn path_text(path: PathBuf) -> Seq<char>;

/// The path that a string names.
///
/// Calls `PathBuf::from`, which copies the string into the path: the path holds the string.
#[verifier::external_body]
fn path_from_str(s: &str) -> (r: PathBuf)
    ensures
        path_text(r) == s@,
{
    PathBuf::from(s)
}

/// What a path holds, as text.
///
/// Calls `to_string_lossy`, which shows the path as a string, with a replacement character
/// in the place of whatever in it is no text. The text is named `path_text`.
#[verifier::external_body]
fn path_to_string(path: &PathBuf) -> (r: String)
    ensures
        r@ == path_text(*path),
{
    path.to_string_lossy().into_owned()
}

/// The path `path` as seen from `parent`.
///
/// Calls `Path::join`, which puts `path` behind `parent`, or gives `path` alone where it is
/// absolute. What is absolute depends on the platform, so nothing is claimed of the result.
#[verifier::external_body]
fn path_join(parent: &Path, path: &PathBuf) -> PathBuf {
    parent.join(path)
}

/// A copy of a path.
///
/// Calls `PathBuf::clone`, which gives an equal path.
#[verifier::external_body]
fn path_clone(path: &PathBuf) -> (r: PathBuf)
    ensures
        r == *path,
{
    path.clone()
}

/// The path of a pem file that holds an identity.
#[derive(Debug)]
pub struct IdentityFromFile(PathBuf);

impl IdentityFromFile {
    /// The path that is held.
    pub closed spec fn spec_path(&self) -> PathBuf {
        self.0
    }

    /// The identity in the file at `path`.
    pub fn from_path(path: PathBuf) -> (r: Self)
        ensures
            r.spec_path() == path,
    {
        IdentityFromFile(path)
    }

    /// The identity in the file that `s` names: every string names a file, and the path
    /// that is held is the string.
    pub fn from_str(s: &str) -> (r: Result<Self, ()>)
        ensures
            r is Ok,
            path_text(r->Ok_0.spec_path()) == s@,
    {
        Ok(IdentityFromFile::from_path(path_from_str(s)))
    }

    /// Join the parent path to the inner path.
    /// This is needed since the identity may have been initialized without the parent
    /// path during deserialization.
    ///
    /// How two paths are joined is the platform's to say: the path that is held afterwards
    /// is whatever the join of `parent` and the path that was held gave.
    pub fn join_parent(&mut self, parent: &Path) {
        let joined = path_join(parent, &self.0);
        *self = IdentityFromFile::from_path(joined);
    }

    /// Return the path
    pub fn path(&self) -> (r: &PathBuf)
        ensures
            *r == self.spec_path(),
    {
        &self.0
    }

    /// The path as text.
    pub fn to_string(&self) -> (text: String)
        ensures
            text@ == path_text(self.spec_path()),
    {
        path_to_string(&self.0)
    }
}

impl Clone for IdentityFromFile {
    fn clone(&self) -> (r: Self)
        ensures
            r == *self,
    {
        IdentityFromFile(path_clone(&self.0))
    }
}

} // verus!
