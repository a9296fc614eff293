use exifmap::paths::{copy_range, extension, file_name, file_stem, join, starts_with};
use std::path::{Path, PathBuf};

fn bytes(text: &str) -> Vec<u8> {
    text.as_bytes().to_vec()
}

fn some(text: &str) -> Option<Vec<u8>> {
    Some(bytes(text))
}

const SAMPLES: [&str; 40] = [
    "",
    "/",
    "//",
    ".",
    "..",
    "...",
    "./",
    "/.",
    "/..",
    "a",
    "a/",
    "a//",
    "a/.",
    "a/./",
    "a/..",
    "a/../",
    "./a",
    "../a",
    "a.",
    "a..",
    "..a",
    ".a",
    ".a.",
    ".hidden",
    ".hidden.txt",
    "a.b",
    "a.b.c",
    "/a/b.c",
    "/tmp/x.tar.gz",
    "x/.y",
    "x/..y",
    "x/y..",
    "foo.txt/.//",
    "foo.txt/..",
    "a/b/../c.txt",
    "/photos/a.jpg",
    "/photos/IMG 0001.JPEG",
    "/photos/übung.png",
    "dir.d/file",
    "dir.d/.profile",
];

#[test]
fn file_name_is_the_last_component() {
    assert_eq!(file_name(&bytes("/photos/a.jpg")), some("a.jpg"));
    assert_eq!(file_name(&bytes("a")), some("a"));
    assert_eq!(file_name(&bytes("dir/sub/")), some("sub"));
    assert_eq!(file_name(&bytes("foo.txt/.//")), some("foo.txt"));
}

#[test]
fn file_name_is_missing_for_root_empty_and_parent() {
    assert_eq!(file_name(&bytes("")), None);
    assert_eq!(file_name(&bytes("/")), None);
    assert_eq!(file_name(&bytes(".")), None);
    assert_eq!(file_name(&bytes("..")), None);
    assert_eq!(file_name(&bytes("a/..")), None);
    assert_eq!(file_name(&bytes("a/../")), None);
}

#[test]
fn file_stem_ends_at_the_last_dot() {
    assert_eq!(file_stem(&bytes("/photos/a.jpg")), some("a"));
    assert_eq!(file_stem(&bytes("/tmp/x.tar.gz")), some("x.tar"));
    assert_eq!(file_stem(&bytes("a.")), some("a"));
    assert_eq!(file_stem(&bytes("..a")), some("."));
}

#[test]
fn file_stem_is_the_name_without_a_split_point() {
    assert_eq!(file_stem(&bytes("Makefile")), some("Makefile"));
    assert_eq!(file_stem(&bytes(".bashrc")), some(".bashrc"));
    assert_eq!(file_stem(&bytes("/")), None);
}

#[test]
fn extension_follows_the_last_dot() {
    assert_eq!(extension(&bytes("/photos/a.jpg")), some("jpg"));
    assert_eq!(extension(&bytes("/tmp/x.tar.gz")), some("gz"));
    assert_eq!(extension(&bytes("a.")), some(""));
    assert_eq!(extension(&bytes(".hidden.txt")), some("txt"));
}

#[test]
fn extension_is_missing_without_a_split_point() {
    assert_eq!(extension(&bytes("Makefile")), None);
    assert_eq!(extension(&bytes(".bashrc")), None);
    assert_eq!(extension(&bytes("dir.d/file")), None);
    assert_eq!(extension(&bytes("a/..")), None);
}

#[test]
fn names_agree_with_the_standard_library() {
    for sample in SAMPLES {
        let path = Path::new(sample);
        let name = path.file_name().map(|name| bytes(name.to_str().unwrap()));
        let stem = path.file_stem().map(|stem| bytes(stem.to_str().unwrap()));
        let ext = path.extension().map(|ext| bytes(ext.to_str().unwrap()));
        assert_eq!(file_name(&bytes(sample)), name, "file name of {:?}", sample);
        assert_eq!(file_stem(&bytes(sample)), stem, "file stem of {:?}", sample);
        assert_eq!(extension(&bytes(sample)), ext, "extension of {:?}", sample);
    }
}

#[test]
fn names_keep_bytes_that_are_not_text() {
    let path = vec![b'/', b'p', b'/', 0xff, 0xfe, b'.', 0xc3, b'j'];
    assert_eq!(file_name(&path), Some(vec![0xff, 0xfe, b'.', 0xc3, b'j']));
    assert_eq!(file_stem(&path), Some(vec![0xff, 0xfe]));
    assert_eq!(extension(&path), Some(vec![0xc3, b'j']));
}

#[test]
fn join_adds_a_separator_where_one_is_missing() {
    assert_eq!(join(&bytes("/out"), &bytes("a_thumb.jpg")), bytes("/out/a_thumb.jpg"));
    assert_eq!(join(&bytes("/out/"), &bytes("a_thumb.jpg")), bytes("/out/a_thumb.jpg"));
    assert_eq!(join(&bytes("/"), &bytes("data.json")), bytes("/data.json"));
    assert_eq!(join(&bytes(""), &bytes("data.json")), bytes("data.json"));
}

#[test]
fn join_lets_a_rooted_name_stand_alone() {
    assert_eq!(join(&bytes("/out"), &bytes("/etc/passwd")), bytes("/etc/passwd"));
}

#[test]
fn join_agrees_with_the_standard_library() {
    let directories = ["", "/", "/out", "/out/", "out", "out//", "a/b"];
    let names = ["a_thumb.jpg", "/abs", "", "x/y", ".", "data.json"];
    for directory in directories {
        for name in names {
            let mut expected = PathBuf::from(directory);
            expected.push(name);
            assert_eq!(
                join(&bytes(directory), &bytes(name)),
                bytes(expected.to_str().unwrap()),
                "{:?} joined with {:?}",
                directory,
                name
            );
        }
    }
}

#[test]
fn starts_with_takes_whole_components() {
    assert!(starts_with(&bytes("/photos/out"), &bytes("/photos")));
    assert!(starts_with(&bytes("/photos"), &bytes("/photos")));
    assert!(starts_with(&bytes("/photos"), &bytes("/")));
    assert!(!starts_with(&bytes("/photos-out"), &bytes("/photos")));
    assert!(!starts_with(&bytes("/photos"), &bytes("/photos/out")));
    assert!(!starts_with(&bytes("/out"), &bytes("/photos")));
}

#[test]
fn starts_with_agrees_with_the_standard_library_on_resolved_paths() {
    let resolved = ["/", "/a", "/a/b", "/ab", "/a/b/c", "/a/bc", "/x/y/z", "/x"];
    for inner in resolved {
        for outer in resolved {
            assert_eq!(
                starts_with(&bytes(inner), &bytes(outer)),
                Path::new(inner).starts_with(Path::new(outer)),
                "{:?} within {:?}",
                inner,
                outer
            );
        }
    }
}

#[test]
fn copy_range_takes_the_bytes_between_the_bounds() {
    let all = bytes("/photos/a.jpg");
    assert_eq!(copy_range(&all, 8, 9), bytes("a"));
    assert_eq!(copy_range(&all, 0, all.len()), all);
    assert_eq!(copy_range(&all, 4, 4), Vec::<u8>::new());
}
