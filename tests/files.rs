use nix_tests::files::{
    files_from_output, is_test_file_name, search_test_files, FindSearchTestFiles, PathKind,
    PathProbe, RgSearchTestFiles, SearchTestFiles, TestFile,
};

fn probe(path: &str, kind: PathKind) -> PathProbe {
    PathProbe { path: path.to_string(), kind }
}

fn dir(found: &[&str]) -> PathKind {
    PathKind::Directory(found.iter().map(|s| s.to_string()).collect())
}

#[test]
fn finds_valid_test_files_by_path() {
    let files = search_test_files(vec![probe(
        "/d",
        dir(&["/d/file3_test.nix", "/d/file1_test.nix", "/d/file2_test.nix"]),
    )]);

    assert_eq!(
        files,
        vec![
            TestFile::Valid("/d/file1_test.nix".to_string()),
            TestFile::Valid("/d/file2_test.nix".to_string()),
            TestFile::Valid("/d/file3_test.nix".to_string()),
        ]
    );
}

#[test]
fn classifies_single_files_by_name() {
    let files = search_test_files(vec![
        probe("/d/file_test.nix", PathKind::File),
        probe("/d/flake.nix", PathKind::File),
    ]);

    assert_eq!(
        files,
        vec![
            TestFile::Invalid("/d/flake.nix".to_string()),
            TestFile::Valid("/d/file_test.nix".to_string()),
        ]
    );
}

#[test]
fn finds_nothing_in_a_directory_without_test_files() {
    assert_eq!(search_test_files(vec![probe("/d", dir(&[]))]), vec![]);
    assert_eq!(search_test_files(vec![]), vec![]);
}

#[test]
fn removes_duplicate_test_files() {
    let files = search_test_files(vec![
        probe("/d/file_test.nix", PathKind::File),
        probe("/d/file_test.nix", PathKind::File),
        probe("/d", dir(&["/d/file_test.nix"])),
    ]);

    assert_eq!(files, vec![TestFile::Valid("/d/file_test.nix".to_string())]);
}

#[test]
fn handles_nonexistent_paths() {
    let files = search_test_files(vec![probe("/tmp/not_existing", PathKind::Missing)]);

    assert_eq!(files, vec![TestFile::NotFound("/tmp/not_existing".to_string())]);
}

#[test]
fn handles_mixed_paths_in_rank_order() {
    let files = search_test_files(vec![
        probe("/d", dir(&["/d/file2_test.nix", "/d/file1_test.nix"])),
        probe("/tmp/not_existing", PathKind::Missing),
        probe("/a/readme.md", PathKind::File),
    ]);

    assert_eq!(
        files,
        vec![
            TestFile::Invalid("/a/readme.md".to_string()),
            TestFile::NotFound("/tmp/not_existing".to_string()),
            TestFile::Valid("/d/file1_test.nix".to_string()),
            TestFile::Valid("/d/file2_test.nix".to_string()),
        ]
    );
}

#[test]
fn orders_paths_by_bytes() {
    let files = search_test_files(vec![probe(
        "/d",
        dir(&["b_test.nix", "B_test.nix", "a_test.nix", "ab_test.nix", "é_test.nix"]),
    )]);
    let names: Vec<&str> = files.iter().map(|f| f.name()).collect();

    assert_eq!(names, vec!["B_test.nix", "a_test.nix", "ab_test.nix", "b_test.nix", "é_test.nix"]);
    assert!(files.windows(2).all(|w| w[0] < w[1]));
}

#[test]
fn same_path_of_different_kinds_is_kept_twice() {
    let files = search_test_files(vec![
        probe("/x_test.nix", PathKind::Missing),
        probe("/y", dir(&["/x_test.nix"])),
    ]);

    assert_eq!(
        files,
        vec![
            TestFile::NotFound("/x_test.nix".to_string()),
            TestFile::Valid("/x_test.nix".to_string()),
        ]
    );
}

#[test]
fn ranks_and_names() {
    assert_eq!(TestFile::Valid("v".to_string()).rank(), 2);
    assert_eq!(TestFile::NotFound("n".to_string()).rank(), 1);
    assert_eq!(TestFile::Invalid("i".to_string()).rank(), 0);
    assert_eq!(TestFile::NotFound("n".to_string()).name(), "n");
    assert!(TestFile::Invalid("z".to_string()).precedes(&TestFile::Valid("a".to_string())));
    assert!(!TestFile::Valid("a".to_string()).precedes(&TestFile::Valid("a".to_string())));
    assert!(TestFile::Valid("a".to_string()).same_as(&TestFile::Valid("a".to_string())));
}

#[test]
fn recognises_the_test_file_suffix() {
    assert!(is_test_file_name("dir/my_test.nix"));
    assert!(is_test_file_name("_test.nix"));
    assert!(!is_test_file_name("test.nix"));
    assert!(!is_test_file_name("my_test.nix.bak"));
}

#[test]
fn builds_search_commands() {
    assert_eq!(
        RgSearchTestFiles.find_files_command("src"),
        vec!["rg", "--files", "--glob", "*_test.nix", "src"]
    );
    assert_eq!(
        FindSearchTestFiles.find_files_command("src"),
        vec!["find", "src", "-name", "*_test.nix", "-type", "f"]
    );
}

#[test]
fn reads_search_output_lines() {
    assert_eq!(
        files_from_output("a_test.nix\r\nb/c_test.nix\n"),
        vec!["a_test.nix".to_string(), "b/c_test.nix".to_string()]
    );
    assert!(files_from_output("").is_empty());
}
