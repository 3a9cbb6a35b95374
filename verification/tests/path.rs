use std::path::Path;
use yourcloud_client::path::{components_of, is_absolute, join, path_starts_with};

#[test]
fn absolute_paths_begin_with_the_root() {
    for p in ["", "/", "/a", "a", "./a", "../a", " /a"] {
        assert_eq!(is_absolute(p), Path::new(p).is_absolute(), "{}", p);
    }
}

#[test]
fn names_are_joined_to_directories() {
    for base in ["", "/", "/a", "/a/", "a", "a//", "."] {
        for name in ["", "b", "/b", "b/c", "..", ".tmp_x", "é"] {
            let expected = Path::new(base).join(name);
            assert_eq!(join(base, name), expected.to_str().unwrap(), "{:?} {:?}", base, name);
        }
    }
}

#[test]
fn prefixes_of_paths_are_recognised() {
    let paths = [
        "", "/", "/mnt", "/mnt/", "/mnt/disk", "/mnt//disk/.", "/mnt/./disk", "/mnt/disk2", "mnt", "./mnt", ".", "..",
        "../a", "/mnt/disk/a/b", "//mnt", "./.", "a/./b", "a/b", "a/../b",
    ];
    for p in paths {
        for base in paths {
            assert_eq!(
                path_starts_with(p.as_bytes(), base.as_bytes()),
                Path::new(p).starts_with(base),
                "{:?} {:?}",
                p,
                base
            );
        }
    }
}

#[test]
fn components_leave_out_what_names_nothing() {
    assert_eq!(components_of(b"/a//./b/"), vec![b"/".to_vec(), b"a".to_vec(), b"b".to_vec()]);
    assert_eq!(components_of(b"./a"), vec![b".".to_vec(), b"a".to_vec()]);
    assert!(components_of(b"").is_empty());
}

#[test]
fn joined_names_lie_below_their_directory() {
    let p = join("/data", "chunk");
    assert_eq!(p, "/data/chunk");
    assert!(path_starts_with(p.as_bytes(), b"/data"));
    assert_ne!(join("/data", "a"), join("/data", "b"));
}
