//! Entry paths and the malicious-archive check.
use dcspkg::archive::ArchiveEntry;
use dcspkg::archive::check_entries;
use dcspkg::archive::entry_path_is_safe;
use dcspkg::errors::InstallError;

#[test]
fn ordinary_relative_paths_are_safe() {
    assert!(entry_path_is_safe("hello.txt"));
    assert!(entry_path_is_safe("bin/gcc"));
    assert!(entry_path_is_safe("a/b/c"));
    assert!(entry_path_is_safe("..a/b"));
    assert!(entry_path_is_safe("a../b"));
    assert!(entry_path_is_safe("..."));
}

#[test]
fn escaping_paths_are_not_safe() {
    assert!(!entry_path_is_safe("../../evil"));
    assert!(!entry_path_is_safe(".."));
    assert!(!entry_path_is_safe("a/../b"));
    assert!(!entry_path_is_safe("a/.."));
    assert!(!entry_path_is_safe("/absolute"));
    assert!(!entry_path_is_safe(""));
}

fn entry(path: &str) -> ArchiveEntry {
    ArchiveEntry { path: path.to_string(), is_dir: false, mode: 0o644, data: vec![1, 2, 3] }
}

#[test]
fn an_escaping_entry_is_malicious() {
    let es = vec![entry("fine.txt"), entry("../../evil")];
    assert_eq!(check_entries(&es), Err(InstallError::MaliciousArchive));
}

#[test]
fn safe_entries_pass() {
    let es = vec![entry("fine.txt"), entry("bin/tool")];
    assert_eq!(check_entries(&es), Ok(()));
}
