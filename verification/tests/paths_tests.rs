use rust_pkg_gen::paths::{decode_percent20, normalize_path};

#[test]
fn normalize_collapses_parent() {
    assert_eq!(normalize_path("a/b/../c"), "a/c");
}

#[test]
fn normalize_parent_pop_never_underflows() {
    assert_eq!(normalize_path("a/../../b"), "b");
}

#[test]
fn normalize_drops_dot_and_empty_components() {
    assert_eq!(normalize_path("./a//b/."), "a/b");
    assert_eq!(normalize_path("a/./b"), "a/b");
}

#[test]
fn normalize_preserves_a_leading_root() {
    assert_eq!(normalize_path("/a/b"), "/a/b");
    assert_eq!(normalize_path("/a/b/../c"), "/a/c");
    assert_eq!(normalize_path("/a/../../b"), "/b");
    assert_eq!(normalize_path("/"), "/");
}

#[test]
fn normalize_keeps_plain_paths() {
    assert_eq!(
        normalize_path("dist/2024-01-01/rust-std.tar.gz"),
        "dist/2024-01-01/rust-std.tar.gz"
    );
}

#[test]
fn decode_replaces_percent_twenty() {
    assert_eq!(decode_percent20("a%20b"), "a b");
    assert_eq!(decode_percent20("no-escapes"), "no-escapes");
    assert_eq!(decode_percent20("%20%20"), "  ");
    assert_eq!(decode_percent20("%2"), "%2");
}
