use rust_cheat::LoadError;
use rust_cheat::Loader;
use rust_cheat::banner;

#[test]
fn banner_text() {
    assert_eq!(banner(), "Rust cheatsheet snippets");
}

#[test]
fn banner_is_one_line() {
    let b = banner();
    assert!(!b.contains('\n'));
    assert!(!b.is_empty());
}

#[test]
fn banner_repeat_identical() {
    assert_eq!(banner(), banner());
}

#[test]
fn loads_exact_bytes() {
    let mut l = Loader::new();
    l.push_chunk(&[1, 2, 3]);
    l.push_chunk(&[]);
    l.push_chunk(&[4, 5]);
    assert_eq!(l.finish(), Ok(vec![1, 2, 3, 4, 5]));
}

#[test]
fn empty_load_succeeds_with_empty_buffer() {
    let l = Loader::new();
    assert_eq!(l.finish(), Ok(Vec::new()));
}

#[test]
fn failed_load_returns_no_buffer() {
    let mut l = Loader::new();
    l.push_chunk(&[9, 9, 9]);
    assert_eq!(l.fail(LoadError::Other), Err(LoadError::Other));
}

#[test]
fn open_failure_not_found() {
    let l = Loader::new();
    assert_eq!(l.fail(LoadError::NotFound), Err(LoadError::NotFound));
}

#[test]
fn open_failure_permission_denied() {
    let l = Loader::new();
    assert_eq!(
        l.fail(LoadError::PermissionDenied),
        Err(LoadError::PermissionDenied)
    );
}

#[test]
fn repeated_load_yields_identical_contents() {
    let chunks: [&[u8]; 3] = [&[1, 2], &[3], &[4, 5, 6]];
    let mut first = Loader::new();
    let mut second = Loader::new();
    for c in chunks.iter() {
        first.push_chunk(c);
        second.push_chunk(c);
    }
    assert_eq!(first.finish(), second.finish());
}

#[test]
fn describe_not_found() {
    assert_eq!(LoadError::NotFound.describe(), "file not found");
}

#[test]
fn describe_permission_denied() {
    assert_eq!(LoadError::PermissionDenied.describe(), "permission denied");
}

#[test]
fn describe_other() {
    assert_eq!(LoadError::Other.describe(), "I/O error");
}

#[test]
fn error_kinds_are_distinct() {
    assert_ne!(LoadError::NotFound, LoadError::PermissionDenied);
    assert_ne!(LoadError::NotFound, LoadError::Other);
    assert_ne!(LoadError::PermissionDenied, LoadError::Other);
    assert_eq!(LoadError::NotFound, LoadError::NotFound);
}
