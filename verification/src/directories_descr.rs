//! The orchestrator: an ordered list of sync entries under two base
//! directories, mirrored entry by entry in a chosen direction. The two
//! directions share one implementation, so the per-entry source and
//! destination of a download are exactly the swapped pair of an upload. The
//! first failing entry aborts the rest — already-processed entries stay
//! mirrored — and the error identifies that entry. A drift check computes the
//! per-entry one-directional diff without copying anything.

use vstd::prelude::*;

use crate::dir_block::DirBlock;
use crate::dir_block::DirFileType;
use crate::file_ops::get_dir_diff;
use crate::file_ops::is_create_dir_error_for;
use crate::file_ops::is_dir_copy_error_for;
use crate::file_ops::is_dir_diff_error_for;
use crate::file_ops::is_file_copy_error_for;
use crate::file_ops::sync_dir;
use crate::file_ops::sync_file;
use crate::file_ops::FileOperationError;
use crate::paths::join_two_paths;
use crate::paths::spec_join;
use crate::paths::spec_parent;

verus! {

/// A failed sync run: the entry it failed on, identified by its index and
/// its declared path pair, and the underlying file-operation failure.
#[derive(Debug, PartialEq, Eq)]
pub struct SyncError {
    pub entry_index: usize,
    pub repo_path: String,
    pub system_path: String,
    pub cause: FileOperationError,
}

/// The directories description: two base paths and the ordered entries
/// mirrored between them. The order is the execution and reporting order.
#[derive(Debug)]
pub struct DirectoriesDescr {
    /// Base of every entry's repository-side path.
    repo_base: String,
    /// Base of every entry's system-side path.
    system_base: String,
    /// The entries, processed in order.
    dir_blocks: Vec<DirBlock>,
}

/// What a failed entry's cause may be, given the entry's kind and its
/// computed source and destination: for a file, a failure to create the
/// destination's parent chain or to copy; for a directory, a failure to
/// create the destination or of the mirroring tool.
pub open spec fn spec_entry_failure(
    block: DirBlock,
    from: Seq<char>,
    to: Seq<char>,
    cause: FileOperationError,
) -> bool {
    match block.spec_sync_type() {
        DirFileType::File => is_create_dir_error_for(cause, spec_parent(to))
            || is_file_copy_error_for(cause, from, to),
        DirFileType::Dir => is_create_dir_error_for(cause, to) || is_dir_copy_error_for(
            cause,
            from,
            to,
        ),
    }
}

impl DirectoriesDescr {
    pub closed spec fn spec_repo_base(&self) -> Seq<char> {
        self.repo_base@
    }

    pub closed spec fn spec_system_base(&self) -> Seq<char> {
        self.system_base@
    }

    pub closed spec fn spec_blocks(&self) -> Seq<DirBlock> {
        self.dir_blocks@
    }

    /// An entry's absolute repository-side path: the repository base joined
    /// with the entry's repository path.
    pub open spec fn spec_repo_abs(&self, i: int) -> Seq<char> {
        spec_join(self.spec_repo_base(), self.spec_blocks()[i].spec_repo_path())
    }

    /// An entry's absolute system-side path: the system base joined with the
    /// entry's system path.
    pub open spec fn spec_system_abs(&self, i: int) -> Seq<char> {
        spec_join(self.spec_system_base(), self.spec_blocks()[i].spec_system_path())
    }

    /// Source and destination of one entry of a download.
    pub open spec fn spec_download_paths(&self, i: int) -> (Seq<char>, Seq<char>) {
        (self.spec_repo_abs(i), self.spec_system_abs(i))
    }

    /// Source and destination of one entry of an upload.
    pub open spec fn spec_upload_paths(&self, i: int) -> (Seq<char>, Seq<char>) {
        (self.spec_system_abs(i), self.spec_repo_abs(i))
    }

    /// What a failed run reports: a live entry, identified by its declared
    /// path pair, whose cause fits the entry's kind and the given direction.
    pub open spec fn spec_failed_entry(&self, e: SyncError, download: bool) -> bool {
        let idx = e.entry_index as int;
        &&& idx < self.spec_blocks().len()
        &&& e.repo_path@ == self.spec_blocks()[idx].spec_repo_path()
        &&& e.system_path@ == self.spec_blocks()[idx].spec_system_path()
        &&& (download ==> spec_entry_failure(
            self.spec_blocks()[idx],
            self.spec_download_paths(idx).0,
            self.spec_download_paths(idx).1,
            e.cause,
        ))
        &&& (!download ==> spec_entry_failure(
            self.spec_blocks()[idx],
            self.spec_upload_paths(idx).0,
            self.spec_upload_paths(idx).1,
            e.cause,
        ))
    }

    pub fn new(repo_base: String, system_base: String, dir_blocks: Vec<DirBlock>) -> (r:
        DirectoriesDescr)
        ensures
            r.spec_repo_base() == repo_base@,
            r.spec_system_base() == system_base@,
            r.spec_blocks() == dir_blocks@,
    {
        DirectoriesDescr { repo_base, system_base, dir_blocks }
    }

    /// Appends an entry at the end of the execution order.
    pub fn push(&mut self, dir_block: DirBlock)
        ensures
            final(self).spec_repo_base() == old(self).spec_repo_base(),
            final(self).spec_system_base() == old(self).spec_system_base(),
            final(self).spec_blocks() == old(self).spec_blocks().push(dir_block),
    {
        self.dir_blocks.push(dir_block);
    }

    /// Mirrors every entry from the repository tree to the system tree, in
    /// entry order, stopping at the first failure.
    pub fn download_from_repo_to_system(&self) -> (r: Result<(), SyncError>)
        ensures
            r is Err ==> self.spec_failed_entry(r->Err_0, true),
    {
        self.sync_entries(true)
    }

    /// Mirrors every entry from the system tree to the repository tree: the
    /// same algorithm as a download with source and destination swapped.
    pub fn upload_from_system_to_repo(&self) -> (r: Result<(), SyncError>)
        ensures
            r is Err ==> self.spec_failed_entry(r->Err_0, false),
    {
        self.sync_entries(false)
    }

    /// The one shared implementation of both directions.
    fn sync_entries(&self, download: bool) -> (r: Result<(), SyncError>)
        ensures
            r is Err ==> self.spec_failed_entry(r->Err_0, download),
    {
        let mut i: usize = 0;
        while i < self.dir_blocks.len()
            invariant
                i <= self.dir_blocks.len(),
            decreases self.dir_blocks.len() - i,
        {
            let block = &self.dir_blocks[i];
            let repo_abs = join_two_paths(self.repo_base.as_str(), block.repo_path().as_str());
            let sys_abs = join_two_paths(self.system_base.as_str(), block.system_path().as_str());
            let (from, to) = if download {
                (repo_abs, sys_abs)
            } else {
                (sys_abs, repo_abs)
            };
            let result = match *block.sync_type() {
                DirFileType::File => sync_file(from.as_str(), to.as_str()),
                DirFileType::Dir => {
                    let ignore = block.ignore_files();
                    sync_dir(from.as_str(), to.as_str(), &ignore)
                },
            };
            match result {
                Ok(()) => {},
                Err(cause) => {
                    return Err(
                        SyncError {
                            entry_index: i,
                            repo_path: block.repo_path().clone(),
                            system_path: block.system_path().clone(),
                            cause,
                        },
                    );
                },
            }
            i = i + 1;
        }
        Ok(())
    }

    /// The drift report: for each entry, the files present under the
    /// system-side subtree but absent under the repository-side subtree,
    /// concatenated across entries in order. Copies nothing.
    pub fn check(&self) -> (r: Result<Vec<String>, SyncError>)
        ensures
            r is Err ==> ({
                let e = r->Err_0;
                let idx = e.entry_index as int;
                &&& idx < self.spec_blocks().len()
                &&& e.repo_path@ == self.spec_blocks()[idx].spec_repo_path()
                &&& e.system_path@ == self.spec_blocks()[idx].spec_system_path()
                &&& is_dir_diff_error_for(e.cause, self.spec_repo_abs(idx), self.spec_system_abs(idx))
            }),
    {
        let mut report: Vec<String> = Vec::new();
        let mut i: usize = 0;
        while i < self.dir_blocks.len()
            invariant
                i <= self.dir_blocks.len(),
            decreases self.dir_blocks.len() - i,
        {
            let block = &self.dir_blocks[i];
            let repo_abs = join_two_paths(self.repo_base.as_str(), block.repo_path().as_str());
            let sys_abs = join_two_paths(self.system_base.as_str(), block.system_path().as_str());
            match get_dir_diff(repo_abs.as_str(), sys_abs.as_str()) {
                Ok(mut diff) => {
                    report.append(&mut diff);
                },
                Err(cause) => {
                    return Err(
                        SyncError {
                            entry_index: i,
                            repo_path: block.repo_path().clone(),
                            system_path: block.system_path().clone(),
                            cause,
                        },
                    );
                },
            }
            i = i + 1;
        }
        Ok(report)
    }
}

/// Direction symmetry: for every entry, the source and destination of a
/// download are exactly the destination and source of an upload of the same
/// descriptor.
pub proof fn lemma_direction_symmetry(d: &DirectoriesDescr, i: int)
    requires
        0 <= i < d.spec_blocks().len(),
    ensures
        d.spec_download_paths(i).0 == d.spec_upload_paths(i).1,
        d.spec_download_paths(i).1 == d.spec_upload_paths(i).0,
{
}

} // verus!
