use punto::add_last_slash_to_path;
use punto::join_two_paths;
use punto::parent_dir;
use punto::sanitize_relative_path;

#[test]
fn test_join_two_paths_basic() {
    let computed = join_two_paths("testing", "this");
    let expected = "testing/this";
    assert_eq!(expected, computed);
}

#[test]
fn test_join_two_paths_trailing_slashes() {
    let computed = join_two_paths("testing/", "this");
    let expected = "testing/this";
    assert_eq!(expected, computed);

    let computed = join_two_paths("testing", "this/");
    let expected = "testing/this/";
    assert_eq!(expected, computed);

    let computed = join_two_paths("testing/", "this/");
    let expected = "testing/this/";
    assert_eq!(expected, computed);
}

#[test]
fn test_join_two_paths_with_relative_paths() {
    let computed = join_two_paths("some/path/", "./relative/path");
    let expected = "some/path/relative/path";
    assert_eq!(expected, computed, "Relative paths are not joined properly");
}

#[test]
fn test_add_last_slash_to_path() {
    let original_path = "some/path";
    let transformted_path = add_last_slash_to_path(original_path);
    assert_eq!(
        transformted_path, "some/path/",
        "add_last_slash_to_path did not added last slash"
    );

    let original_path = "some/path/";
    let transformted_path = add_last_slash_to_path(original_path);
    assert_eq!(
        transformted_path, "some/path/",
        "add_last_slash_to_path changed a path that was correct at first"
    );
}

#[test]
fn test_sanitizer_works() {
    let computed = sanitize_relative_path("./some/rel/path");
    let expected = "some/rel/path";
    assert_eq!(expected, computed, "Relative path sanitizer did not work well");

    let computed = sanitize_relative_path("/some/rel/path");
    let expected = "some/rel/path";
    assert_eq!(expected, computed, "Relative path sanitizer did not work well");
}

#[test]
fn file_operations_test_join_two_paths_basic() {
    let computed = join_two_paths("testing", "this");
    let expected = "testing/this";
    assert_eq!(expected, computed);
}

#[test]
fn file_operations_test_join_two_paths_trailing_slashes() {
    let computed = join_two_paths("testing/", "this");
    let expected = "testing/this";
    assert_eq!(expected, computed);

    let computed = join_two_paths("testing", "this/");
    let expected = "testing/this/";
    assert_eq!(expected, computed);

    let computed = join_two_paths("testing/", "this/");
    let expected = "testing/this/";
    assert_eq!(expected, computed);
}

#[test]
fn file_operations_test_add_last_slash_to_path() {
    let original_path = "some/path";
    let transformted_path = add_last_slash_to_path(original_path);
    assert_eq!(
        transformted_path, "some/path/",
        "add_last_slash_to_path did not added last slash"
    );

    let original_path = "some/path/";
    let transformted_path = add_last_slash_to_path(original_path);
    assert_eq!(
        transformted_path, "some/path/",
        "add_last_slash_to_path changed a path that was correct at first"
    );
}

#[test]
fn test_sanitizer_leaves_plain_paths_unchanged() {
    assert_eq!("a/b", sanitize_relative_path("a/b"));
    assert_eq!("", sanitize_relative_path(""));
    assert_eq!(".", sanitize_relative_path("."));
}

#[test]
fn test_sanitizer_is_idempotent_on_single_markers() {
    for p in ["/a/b", "./a/b", "a/b", "a", "", "trailing/"] {
        let once = sanitize_relative_path(p);
        let twice = sanitize_relative_path(&once);
        assert_eq!(once, twice, "sanitizing twice differed from sanitizing once");
    }
}

#[test]
fn test_parent_dir() {
    assert_eq!("a/b", parent_dir("a/b/c.txt"));
    assert_eq!("a", parent_dir("a/b"));
    assert_eq!("", parent_dir("c.txt"));
    assert_eq!("", parent_dir("/only"));
}

#[test]
fn test_add_last_slash_to_empty_path() {
    assert_eq!("/", add_last_slash_to_path(""));
}
