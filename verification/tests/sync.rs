use std::path::Path;

use punto::DirBlock;
use punto::DirFileType;
use punto::DirectoriesDescr;
use punto::FileOperationError;
use punto::file_ops::build_sync_command;
use punto::join_two_paths;
use punto::sync_file;

/// Each test works under its own scratch directory so tests can run in
/// parallel; the directory is removed before and after.
fn scratch(name: &str) -> String {
    let base = format!("/tmp/punto_test_{}", name);
    fs_extra::dir::remove(&base).expect("could not clear the scratch directory");
    fs_extra::dir::create_all(&base, false).expect("could not create the scratch directory");
    base
}

fn write_file(path: &str, content: &str) {
    fs_extra::dir::create_all(punto::parent_dir(path), false)
        .expect("could not create the file's directory");
    fs_extra::file::write_all(path, content).expect("could not write a test file");
}

fn read_file(path: &str) -> String {
    fs_extra::file::read_to_string(path).expect("could not read a test file")
}

#[test]
fn test_sync_file_creates_destination_tree() {
    let base = scratch("sync_file");
    let from = join_two_paths(&base, "R/src/a.txt");
    let to = join_two_paths(&base, "S/dst/a.txt");
    write_file(&from, "file sync payload");

    sync_file(&from, &to).expect("Copy operation failed to run");

    assert!(
        Path::new(&join_two_paths(&base, "S/dst")).exists(),
        "Dir for the new file was not created"
    );
    assert!(Path::new(&to).exists(), "File was not properly copied");
    assert_eq!(read_file(&from), read_file(&to), "copied bytes differ from the source");

    fs_extra::dir::remove(&base).unwrap();
}

#[test]
fn test_sync_file_overwrites_destination() {
    let base = scratch("sync_file_overwrite");
    let from = join_two_paths(&base, "R/a.txt");
    let to = join_two_paths(&base, "S/a.txt");
    write_file(&from, "new content");
    write_file(&to, "old content");

    sync_file(&from, &to).expect("Copy operation failed to run");
    assert_eq!("new content", read_file(&to));

    fs_extra::dir::remove(&base).unwrap();
}

#[test]
fn test_sync_file_missing_source_reports_both_paths() {
    let base = scratch("sync_file_missing");
    let from = join_two_paths(&base, "R/not_there.txt");
    let to = join_two_paths(&base, "S/out.txt");

    match sync_file(&from, &to) {
        Err(FileOperationError::FileCopyError { from: f, to: t, reason: _ }) => {
            assert_eq!(f, from);
            assert_eq!(t, to);
        }
        other => panic!("expected a file copy error, got {:?}", other),
    }

    fs_extra::dir::remove(&base).unwrap();
}

#[test]
fn test_sync_file_blocked_parent_reports_create_dir_error() {
    let base = scratch("sync_file_blocked");
    let from = join_two_paths(&base, "R/a.txt");
    write_file(&from, "payload");
    // The destination's parent path is an existing file, so the ancestor
    // chain cannot be created.
    let blocker = join_two_paths(&base, "S/blocker");
    write_file(&blocker, "a file where a directory is needed");
    let to = join_two_paths(&blocker, "a.txt");

    match sync_file(&from, &to) {
        Err(FileOperationError::CreateDirError { path, reason: _ }) => {
            assert_eq!(path, blocker);
        }
        other => panic!("expected a create-dir error, got {:?}", other),
    }

    fs_extra::dir::remove(&base).unwrap();
}

#[test]
fn test_build_sync_command_exact() {
    let ignore: Vec<String> = vec!["skip.txt".to_string()];
    let computed = build_sync_command("R/src", "S/dst", &ignore, false);
    assert_eq!(
        "rsync -zaP --mkpath --exclude skip.txt R/src/ S/dst/",
        computed
    );

    let no_ignore: Vec<String> = vec![];
    let computed = build_sync_command("a", "b/", &no_ignore, true);
    assert_eq!("rsync -zaP --mkpath --delete a/ b/", computed);

    let two: Vec<String> = vec!["one".to_string(), "two".to_string()];
    let computed = build_sync_command("x/", "y", &two, false);
    assert_eq!(
        "rsync -zaP --mkpath --exclude one --exclude two x/ y/",
        computed
    );
}

#[test]
fn test_download_fail_fast_identifies_entry_and_skips_rest() {
    let base = scratch("fail_fast");
    let repo_base = join_two_paths(&base, "R");
    let system_base = join_two_paths(&base, "S");
    // Entry 1's source does not exist; entry 2's does.
    write_file(&join_two_paths(&repo_base, "present.txt"), "ok");

    let blocks = vec![
        DirBlock::new(
            "missing.txt".to_string(),
            "a.txt".to_string(),
            DirFileType::File,
            vec![],
        ),
        DirBlock::new(
            "present.txt".to_string(),
            "b.txt".to_string(),
            DirFileType::File,
            vec![],
        ),
    ];
    let descr = DirectoriesDescr::new(repo_base.clone(), system_base.clone(), blocks);

    let err = descr
        .download_from_repo_to_system()
        .expect_err("the first entry's missing source must fail the run");
    assert_eq!(err.entry_index, 0, "the error must identify the first entry");
    assert_eq!(err.repo_path, "missing.txt");
    assert_eq!(err.system_path, "a.txt");
    assert!(
        !Path::new(&join_two_paths(&system_base, "b.txt")).exists(),
        "the entry after the failing one must never be processed"
    );

    fs_extra::dir::remove(&base).unwrap();
}

#[test]
fn test_download_then_upload_is_idempotent_for_file_entries() {
    let base = scratch("direction_symmetry");
    let repo_base = join_two_paths(&base, "R");
    let system_base = join_two_paths(&base, "S");
    write_file(&join_two_paths(&repo_base, "conf/a.txt"), "alpha");
    write_file(&join_two_paths(&repo_base, "b.txt"), "beta");

    let blocks = vec![
        DirBlock::new(
            "conf/a.txt".to_string(),
            "sys_a.txt".to_string(),
            DirFileType::File,
            vec![],
        ),
        DirBlock::new(
            "b.txt".to_string(),
            "deep/sys_b.txt".to_string(),
            DirFileType::File,
            vec![],
        ),
    ];
    let descr = DirectoriesDescr::new(repo_base.clone(), system_base.clone(), blocks);

    descr.download_from_repo_to_system().expect("download failed");
    assert_eq!("alpha", read_file(&join_two_paths(&system_base, "sys_a.txt")));
    assert_eq!("beta", read_file(&join_two_paths(&system_base, "deep/sys_b.txt")));

    descr.upload_from_system_to_repo().expect("upload failed");
    assert_eq!(
        "alpha",
        read_file(&join_two_paths(&repo_base, "conf/a.txt")),
        "a download followed by an upload must give back the repo content"
    );
    assert_eq!("beta", read_file(&join_two_paths(&repo_base, "b.txt")));

    fs_extra::dir::remove(&base).unwrap();
}

#[test]
fn test_check_reports_exactly_the_extra_file() {
    let base = scratch("check_drift");
    let repo_base = join_two_paths(&base, "R");
    let system_base = join_two_paths(&base, "S");
    // Identical subtrees, except one extra file on the system side.
    write_file(&join_two_paths(&repo_base, "d/same.txt"), "same");
    write_file(&join_two_paths(&system_base, "d/same.txt"), "same");
    let extra = join_two_paths(&system_base, "d/extra.txt");
    write_file(&extra, "only here");

    let blocks = vec![DirBlock::new(
        "d".to_string(),
        "d".to_string(),
        DirFileType::Dir,
        vec![],
    )];
    let descr = DirectoriesDescr::new(repo_base.clone(), system_base.clone(), blocks);
    let report = descr.check().expect("check failed");
    assert_eq!(report, vec![extra.clone()], "check must report exactly the extra file");

    // With the trees swapped nothing is missing on the reported side.
    let blocks = vec![DirBlock::new(
        "d".to_string(),
        "d".to_string(),
        DirFileType::Dir,
        vec![],
    )];
    let swapped = DirectoriesDescr::new(system_base.clone(), repo_base.clone(), blocks);
    let report = swapped.check().expect("check failed");
    assert!(report.is_empty(), "no drift must be reported when the trees are swapped");

    fs_extra::dir::remove(&base).unwrap();
}

#[test]
fn test_create_dir_if_not_exists_is_idempotent() {
    let base = scratch("create_dir");
    let deep = join_two_paths(&base, "a/b/c");
    punto::create_dir_if_not_exists(&deep).expect("could not create the directory chain");
    assert!(Path::new(&deep).is_dir(), "the full ancestor chain must be created");
    punto::create_dir_if_not_exists(&deep)
        .expect("creating an existing directory must not be an error");
    fs_extra::dir::remove(&base).unwrap();
}

#[test]
fn test_push_extends_the_execution_order() {
    let repo_base = "/tmp/punto_unused_r".to_string();
    let system_base = "/tmp/punto_unused_s".to_string();
    let mut descr = DirectoriesDescr::new(repo_base, system_base, vec![]);
    descr.push(DirBlock::new(
        "x".to_string(),
        "y".to_string(),
        DirFileType::File,
        vec![],
    ));
    // An empty-to-one-entry descriptor downloads its single (missing) entry
    // and therefore fails on it, which shows the pushed entry is live.
    let err = descr.download_from_repo_to_system().unwrap_err();
    assert_eq!(err.entry_index, 0);
    assert_eq!(err.repo_path, "x");
    assert_eq!(err.system_path, "y");
}

#[test]
fn test_dir_block_sanitizes_its_paths() {
    let block = DirBlock::new(
        "./conf".to_string(),
        "/etc/conf".to_string(),
        DirFileType::Dir,
        vec!["skip.txt".to_string()],
    );
    assert_eq!("conf", block.repo_path().as_str());
    assert_eq!("etc/conf", block.system_path().as_str());
    assert_eq!(DirFileType::Dir, *block.sync_type());
    assert_eq!(block.ignore_files(), vec!["skip.txt"]);
}
