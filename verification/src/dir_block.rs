//! The data model of one sync entry: a path pair relative to the two base
//! directories, whether the pair names files or directory subtrees, and the
//! exclusion patterns for the directory case. Entries are immutable after
//! construction, and both paths are sanitized on the way in.

use vstd::prelude::*;

use crate::paths::sanitize_relative_path;
use crate::paths::spec_sanitize;

verus! {

/// Whether a sync entry names a single file or a directory subtree.
#[derive(Debug, Clone, Copy, PartialEq, Eq, Structural)]
pub enum DirFileType {
    File,
    Dir,
}

/// One declared path pair plus its sync mode and exclusions.
#[derive(Debug)]
pub struct DirBlock {
    /// Path relative to the descriptor's repository base, sanitized.
    repo_path: String,
    /// Path relative to the descriptor's system base, sanitized.
    system_path: String,
    /// Whether this entry mirrors a file or a directory subtree.
    sync_type: DirFileType,
    /// Patterns to exclude from a directory transfer, relative to the
    /// entry's source root.
    ignore_files: Vec<String>,
}

impl DirBlock {
    pub closed spec fn spec_repo_path(&self) -> Seq<char> {
        self.repo_path@
    }

    pub closed spec fn spec_system_path(&self) -> Seq<char> {
        self.system_path@
    }

    pub closed spec fn spec_sync_type(&self) -> DirFileType {
        self.sync_type
    }

    pub closed spec fn spec_ignore_files(&self) -> Seq<Seq<char>> {
        self.ignore_files.deep_view()
    }

    /// Builds an entry, sanitizing both relative paths.
    pub fn new(
        repo_path: String,
        system_path: String,
        sync_type: DirFileType,
        ignore_files: Vec<String>,
    ) -> (r: DirBlock)
        ensures
            r.spec_repo_path() == spec_sanitize(repo_path@),
            r.spec_system_path() == spec_sanitize(system_path@),
            r.spec_sync_type() == sync_type,
            r.spec_ignore_files() == ignore_files.deep_view(),
    {
        DirBlock {
            repo_path: sanitize_relative_path(repo_path.as_str()),
            system_path: sanitize_relative_path(system_path.as_str()),
            sync_type,
            ignore_files,
        }
    }

    pub fn repo_path(&self) -> (r: &String)
        ensures
            r@ == self.spec_repo_path(),
    {
        &self.repo_path
    }

    pub fn system_path(&self) -> (r: &String)
        ensures
            r@ == self.spec_system_path(),
    {
        &self.system_path
    }

    pub fn sync_type(&self) -> (r: &DirFileType)
        ensures
            *r == self.spec_sync_type(),
    {
        &self.sync_type
    }

    /// A copy of the entry's exclusion patterns.
    pub fn ignore_files(&self) -> (r: Vec<String>)
        ensures
            r.deep_view() == self.spec_ignore_files(),
    {
        let r = self.ignore_files.clone();
        proof {
            assert forall|i: int| 0 <= i < self.ignore_files@.len() implies r@[i]
                == self.ignore_files@[i] by {
                assert(cloned::<String>(self.ignore_files@[i], r@[i]));
            }
            assert(r@ =~= self.ignore_files@);
        }
        r
    }
}

} // verus!
