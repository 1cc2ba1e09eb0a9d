use fs_utils_ffi::path::destination_directory;

#[test]
fn resolves_basename_under_destination() {
    assert_eq!(destination_directory("src", "out"), "out/src");
}

#[test]
fn resolves_nested_source() {
    assert_eq!(destination_directory("a/b/c", "dest"), "dest/c");
}

#[test]
fn trailing_separators_are_ignored() {
    assert_eq!(destination_directory("src/", "out"), "out/src");
    assert_eq!(destination_directory("a/src///", "out"), "out/src");
    assert_eq!(
        destination_directory("proj/src/", "out"),
        destination_directory("proj/src", "out")
    );
}

#[test]
fn destination_with_trailing_separator_gets_no_second_one() {
    assert_eq!(destination_directory("src", "out/"), "out/src");
}

#[test]
fn empty_destination_gives_bare_name() {
    assert_eq!(destination_directory("x/src", ""), "src");
}

#[test]
fn absolute_paths() {
    assert_eq!(destination_directory("/home/u/docs", "/tmp"), "/tmp/docs");
}

#[test]
fn source_without_name_falls_back_to_root() {
    assert_eq!(destination_directory("/", "out"), "out/ROOT");
    assert_eq!(destination_directory("", "out"), "out/ROOT");
    assert_eq!(destination_directory(".", "out"), "out/ROOT");
    assert_eq!(destination_directory("a/..", "out"), "out/ROOT");
}

#[test]
fn dotted_names_are_kept() {
    assert_eq!(destination_directory("a/.cfg", "out"), "out/.cfg");
    assert_eq!(destination_directory("a/...", "out"), "out/...");
}

#[test]
fn non_ascii_names() {
    assert_eq!(destination_directory("données/été", "sortie"), "sortie/été");
}

#[test]
fn resolution_is_repeatable() {
    let a = destination_directory("x/y", "z");
    let b = destination_directory("x/y", "z");
    assert_eq!(a, b);
}

#[test]
fn trailing_dot_segments_are_ignored() {
    assert_eq!(destination_directory("a/.", "out"), "out/a");
    assert_eq!(destination_directory("a/./", "out"), "out/a");
    assert_eq!(destination_directory("x/a/./.", "out"), "out/a");
    assert_eq!(destination_directory("/.", "out"), "out/ROOT");
    assert_eq!(destination_directory("./", "out"), "out/ROOT");
}
