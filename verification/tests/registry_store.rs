//! The registry store: reading, appending, and the no-deduplication rule.
use dcspkg::Package;
use dcspkg::errors::InstallError;
use dcspkg::json::package_list_from_json;
use dcspkg::registry::add_to_registry;
use dcspkg::registry::list_installed_packages;

fn named(name: &str) -> Package {
    let mut p = Package::default();
    p.name = name.to_string();
    p
}

#[test]
fn a_missing_file_is_an_empty_registry() {
    assert_eq!(list_installed_packages(None), Ok(vec![]));
}

#[test]
fn an_empty_array_is_an_empty_registry() {
    assert_eq!(list_installed_packages(Some("[]")), Ok(vec![]));
}

#[test]
fn malformed_content_is_corrupt() {
    assert_eq!(list_installed_packages(Some("nonsense")), Err(InstallError::RegistryCorrupt));
    assert_eq!(add_to_registry(Some("nonsense"), &named("a")), Err(InstallError::RegistryCorrupt));
}

#[test]
fn appending_to_a_missing_file_registers_one_entry() {
    let content = add_to_registry(None, &named("foo")).unwrap();
    let l = package_list_from_json(&content).unwrap();
    assert_eq!(l.len(), 1);
    assert_eq!(l[0].name, "foo");
}

#[test]
fn what_append_writes_reads_back_unchanged() {
    let c1 = add_to_registry(None, &named("a")).unwrap();
    let c2 = add_to_registry(Some(&c1), &named("b")).unwrap();
    let l = list_installed_packages(Some(&c2)).unwrap();
    assert_eq!(l, vec![named("a"), named("b")]);
}

#[test]
fn appending_the_same_name_twice_registers_two_entries() {
    // No deduplication: installing one name twice appends two entries.
    let c1 = add_to_registry(None, &named("foo")).unwrap();
    let c2 = add_to_registry(Some(&c1), &named("foo")).unwrap();
    let l = list_installed_packages(Some(&c2)).unwrap();
    assert_eq!(l.len(), 2);
    assert_eq!(l[0].name, "foo");
    assert_eq!(l[1].name, "foo");
}
