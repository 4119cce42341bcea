//! One-way mirror operations: copy a single file (creating the destination's
//! ancestor chain), mirror a directory subtree through the external mirroring
//! tool with an exclude list, and compute the one-directional diff between
//! two directory trees. Destination files absent from the source are left
//! untouched unless the explicitly named deleting variant is used.

use vstd::prelude::*;

use crate::command::spec_starts_with_sudo;
use crate::command::spec_trim;
use crate::command::SingleCommand;
use crate::command::SingleCommandError;
use crate::paths::add_last_slash_to_path;
use crate::paths::parent_dir;
use crate::paths::spec_parent;
use crate::paths::spec_with_trailing_slash;

verus! {

/// A failed file operation, carrying the paths it was about for
/// diagnosability.
#[derive(Debug, PartialEq, Eq)]
pub enum FileOperationError {
    /// A directory (with its missing ancestors) could not be created.
    CreateDirError { path: String, reason: String },
    /// A single file could not be copied.
    FileCopyError { from: String, to: String, reason: String },
    /// The external mirroring tool failed; carries its classified outcome.
    DirCopyError { from: String, to: String, cause: SingleCommandError },
    /// The diff between two directory trees could not be computed.
    DirDiffError { first: String, second: String, reason: String },
}

pub open spec fn is_create_dir_error_for(e: FileOperationError, path: Seq<char>) -> bool {
    match e {
        FileOperationError::CreateDirError { path: p, reason: _ } => p@ == path,
        _ => false,
    }
}

pub open spec fn is_file_copy_error_for(e: FileOperationError, from: Seq<char>, to: Seq<char>) -> bool {
    match e {
        FileOperationError::FileCopyError { from: f, to: t, reason: _ } => f@ == from && t@ == to,
        _ => false,
    }
}

pub open spec fn is_dir_copy_error_for(e: FileOperationError, from: Seq<char>, to: Seq<char>) -> bool {
    match e {
        FileOperationError::DirCopyError { from: f, to: t, cause: _ } => f@ == from && t@ == to,
        _ => false,
    }
}

pub open spec fn is_dir_diff_error_for(e: FileOperationError, first: Seq<char>, second: Seq<char>) -> bool {
    match e {
        FileOperationError::DirDiffError { first: f, second: s, reason: _ } => f@ == first && s@
            == second,
        _ => false,
    }
}

/// The exclusion flags of the mirroring command: one `--exclude` per pattern,
/// in order.
pub open spec fn spec_excludes(ignore: Seq<Seq<char>>) -> Seq<char>
    decreases ignore.len(),
{
    if ignore.len() == 0 {
        Seq::empty()
    } else {
        spec_excludes(ignore.drop_last()) + "--exclude "@ + ignore.last() + " "@
    }
}

/// The full command line handed to the external mirroring tool: archive,
/// compress and progress flags, creation of missing destination components,
/// the optional delete-extraneous flag, one exclusion per ignore pattern, and
/// the two paths normalized to end in a separator.
pub open spec fn spec_sync_command(
    from: Seq<char>,
    to: Seq<char>,
    ignore: Seq<Seq<char>>,
    remove_extraneous: bool,
) -> Seq<char> {
    "rsync -zaP --mkpath "@ + (if remove_extraneous {
        "--delete "@
    } else {
        Seq::<char>::empty()
    }) + spec_excludes(ignore) + spec_with_trailing_slash(from) + " "@ + spec_with_trailing_slash(
        to,
    )
}

/// Builds the mirroring tool's command line for the given transfer.
pub fn build_sync_command(
    from: &str,
    to: &str,
    ignore_files: &Vec<String>,
    remove_extraneous: bool,
) -> (r: String)
    ensures
        r@ == spec_sync_command(from@, to@, ignore_files.deep_view(), remove_extraneous),
{
    let mut cmd = "rsync -zaP --mkpath ".to_owned();
    if remove_extraneous {
        cmd.append("--delete ");
    }
    let ghost base: Seq<char> = cmd@;
    proof {
        assert(base + spec_excludes(ignore_files.deep_view().subrange(0, 0)) =~= base);
    }
    let mut k: usize = 0;
    while k < ignore_files.len()
        invariant
            k <= ignore_files.len(),
            base == "rsync -zaP --mkpath "@ + (if remove_extraneous {
                "--delete "@
            } else {
                Seq::<char>::empty()
            }),
            cmd@ == base + spec_excludes(ignore_files.deep_view().subrange(0, k as int)),
        decreases ignore_files.len() - k,
    {
        cmd.append("--exclude ");
        cmd.append(ignore_files[k].as_str());
        cmd.append(" ");
        proof {
            let dv = ignore_files.deep_view();
            assert(dv.subrange(0, k as int + 1).drop_last() =~= dv.subrange(0, k as int));
            assert(dv.subrange(0, k as int + 1).last() == dv[k as int]);
            assert(dv[k as int] == ignore_files@[k as int]@);
            assert(cmd@ =~= base + spec_excludes(dv.subrange(0, k as int + 1)));
        }
        k = k + 1;
    }
    proof {
        let dv = ignore_files.deep_view();
        assert(dv.subrange(0, dv.len() as int) =~= dv);
    }
    let from_slash = add_last_slash_to_path(from);
    let to_slash = add_last_slash_to_path(to);
    cmd.append(from_slash.as_str());
    cmd.append(" ");
    cmd.append(to_slash.as_str());
    proof {
        assert(cmd@ =~= spec_sync_command(
            from@,
            to@,
            ignore_files.deep_view(),
            remove_extraneous,
        ));
    }
    cmd
}

/// The mirroring command never starts with `sudo`: its trimmed form starts
/// with the tool's own name.
proof fn lemma_sync_command_not_sudo(cmd: Seq<char>)
    requires
        cmd.len() > 0,
        cmd[0] == 'r',
    ensures
        !spec_starts_with_sudo(spec_trim(cmd)),
{
    lemma_trim_back_keeps_head(cmd);
}

/// Trimming from the back keeps a non-space head character in place.
proof fn lemma_trim_back_keeps_head(s: Seq<char>)
    requires
        s.len() > 0,
        !crate::command::is_space_char(s[0]),
    ensures
        crate::command::spec_trim_back(s).len() > 0,
        crate::command::spec_trim_back(s)[0] == s[0],
    decreases s.len(),
{
    if s.len() > 1 && crate::command::is_space_char(s[s.len() - 1]) {
        lemma_trim_back_keeps_head(s.drop_last());
    }
}

/// Ensures a directory exists, creating it and all missing ancestors; no
/// error when it is already there.
pub fn create_dir_if_not_exists(path: &str) -> (r: Result<(), FileOperationError>)
    ensures
        r is Err ==> is_create_dir_error_for(r->Err_0, path@),
{
    match create_dir_all_fs(path) {
        Ok(()) => Ok(()),
        Err(reason) => Err(FileOperationError::CreateDirError { path: path.to_owned(), reason }),
    }
}

/// Copies one file to another location, overwriting any existing destination
/// file; the destination's directory chain is created first when absent.
pub fn sync_file(from: &str, to: &str) -> (r: Result<(), FileOperationError>)
    ensures
        r is Err ==> is_create_dir_error_for(r->Err_0, spec_parent(to@)) || is_file_copy_error_for(
            r->Err_0,
            from@,
            to@,
        ),
{
    let to_parent = parent_dir(to);
    match create_dir_all_fs(to_parent) {
        Ok(()) => {},
        Err(reason) => {
            return Err(
                FileOperationError::CreateDirError { path: to_parent.to_owned(), reason },
            );
        },
    }
    match copy_file_fs(from, to) {
        Ok(()) => Ok(()),
        Err(reason) => Err(
            FileOperationError::FileCopyError { from: from.to_owned(), to: to.to_owned(), reason },
        ),
    }
}

/// Mirrors one directory subtree into another through the external mirroring
/// tool, excluding the given patterns (each relative to `from`); files
/// present at the destination but absent from the source are left untouched.
pub fn sync_dir(from: &str, to: &str, ignore_files: &Vec<String>) -> (r: Result<
    (),
    FileOperationError,
>)
    ensures
        r is Err ==> is_create_dir_error_for(r->Err_0, to@) || is_dir_copy_error_for(
            r->Err_0,
            from@,
            to@,
        ),
{
    run_mirror_tool(from, to, ignore_files, false)
}

/// The explicitly named opt-in variant of [`sync_dir`] that also deletes
/// destination entries that have no counterpart under the source.
pub fn sync_dir_deleting_extraneous(from: &str, to: &str, ignore_files: &Vec<String>) -> (r: Result<
    (),
    FileOperationError,
>)
    ensures
        r is Err ==> is_create_dir_error_for(r->Err_0, to@) || is_dir_copy_error_for(
            r->Err_0,
            from@,
            to@,
        ),
{
    run_mirror_tool(from, to, ignore_files, true)
}

fn run_mirror_tool(
    from: &str,
    to: &str,
    ignore_files: &Vec<String>,
    remove_extraneous: bool,
) -> (r: Result<(), FileOperationError>)
    ensures
        r is Err ==> is_create_dir_error_for(r->Err_0, to@) || is_dir_copy_error_for(
            r->Err_0,
            from@,
            to@,
        ),
{
    match create_dir_all_fs(to) {
        Ok(()) => {},
        Err(reason) => {
            return Err(FileOperationError::CreateDirError { path: to.to_owned(), reason });
        },
    }
    let cmd = build_sync_command(from, to, ignore_files, remove_extraneous);
    proof {
        reveal_strlit("rsync -zaP --mkpath ");
        assert(cmd@[0] == 'r');
        lemma_sync_command_not_sudo(cmd@);
    }
    let command = SingleCommand::from_clean(cmd, false, false);
    match command.run() {
        Ok(()) => Ok(()),
        Err(cause) => Err(
            FileOperationError::DirCopyError { from: from.to_owned(), to: to.to_owned(), cause },
        ),
    }
}

/// The list of files present under the second directory but absent under the
/// first, as full paths under the second directory.
pub fn get_dir_diff(first_path: &str, second_path: &str) -> (r: Result<
    Vec<String>,
    FileOperationError,
>)
    ensures
        r is Err ==> is_dir_diff_error_for(r->Err_0, first_path@, second_path@),
{
    match dir_diff_fs(first_path, second_path) {
        Ok(new_files) => Ok(new_files),
        Err(reason) => Err(
            FileOperationError::DirDiffError {
                first: first_path.to_owned(),
                second: second_path.to_owned(),
                reason,
            },
        ),
    }
}

/// Relies on fs_extra::dir::create_all: creates the directory and every
/// missing ancestor, and succeeds without change when it already exists.
#[verifier::external_body]
fn create_dir_all_fs(path: &str) -> (r: Result<(), String>) {
    match fs_extra::dir::create_all(path, false) {
        Ok(()) => Ok(()),
        Err(err) => Err(format!("{}", err)),
    }
}

/// Relies on fs_extra::file::copy: copies one file over another, overwriting
/// an existing destination; fails when the source is missing or not a file,
/// or when the destination's directory does not exist.
#[verifier::external_body]
fn copy_file_fs(from: &str, to: &str) -> (r: Result<(), String>) {
    let mut options = fs_extra::file::CopyOptions::new();
    options.overwrite = true;
    match fs_extra::file::copy(from, to, &options) {
        Ok(_) => Ok(()),
        Err(err) => Err(format!("{}", err)),
    }
}

/// Relies on folder_compare::FolderCompare: walks the second directory and
/// collects the files that have no counterpart under the first, as full
/// paths. The walk panics only on a file path that is not valid UTF-8.
#[verifier::external_body]
fn dir_diff_fs(first: &str, second: &str) -> (r: Result<Vec<String>, String>) {
    let excluded: Vec<String> = Vec::new();
    let cmp = folder_compare::FolderCompare::new(
        std::path::Path::new(second),
        std::path::Path::new(first),
        &excluded,
    );
    match cmp {
        Ok(result) => Ok(
            result.new_files.iter().map(|p| p.to_string_lossy().into_owned()).collect(),
        ),
        Err(err) => Err(format!("{:?}", err)),
    }
}

} // verus!
