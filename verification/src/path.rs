//! The path of a document.
use std::path::PathBuf;
use vstd::prelude::*;
use vstd::std_specs::convert::IntoSpec;

verus! {

#[verifier::external_type_specification]
#[verifier::external_body]
pub struct ExPathBuf(PathBuf);

/// `PathBuf::clone`: the clone equals the path it copies.
#[verifier::external_body]
fn clone_path_buf(path: &PathBuf) -> (r: PathBuf)
    ensures
        r == *path,
{
    path.clone()
}

/// The path of a document handled by the language server.
#[derive(Debug, Eq, Hash, PartialEq)]
pub struct PgLspPath {
    path: PathBuf,
}

impl Clone for PgLspPath {
    fn clone(&self) -> (r: Self)
        ensures
            r == *self,
    {
        PgLspPath { path: clone_path_buf(&self.path) }
    }
}

impl std::ops::Deref for PgLspPath {
    type Target = PathBuf;

    /// The path held.
    fn deref(&self) -> (r: &PathBuf)
        ensures
            *r == self.spec_path(),
    {
        &self.path
    }
}

impl PgLspPath {
    /// The path held.
    pub closed spec fn spec_path(&self) -> PathBuf {
        self.path
    }

    /// A path made from anything that converts into a `PathBuf`.
    pub fn new<T: Into<PathBuf>>(path_to_file: T) -> (r: PgLspPath)
        ensures
            T::obeys_into_spec() ==> r.spec_path() == T::into_spec(path_to_file),
    {
        PgLspPath { path: path_to_file.into() }
    }
}

} // verus!
