//! Decoding the catalog's answers, and computing the path a package is
//! launched from.
use dcspkg::Package;
use dcspkg::errors::InstallError;
use dcspkg::get_pkg_data;
use dcspkg::json::package_list_to_json;
use dcspkg::json::package_to_json;
use dcspkg::list_all_packages;
use dcspkg::run_package;

fn sample(name: &str) -> Package {
    Package {
        name: name.to_string(),
        description: None,
        version: None,
        image_url: None,
        archive_path: format!("{name}.dcspkg"),
        executable_path: Some(format!("bin/{name}")),
        crc: 1,
        has_installer: false,
        add_to_path: false,
    }
}

#[test]
fn a_200_with_a_descriptor_decodes() {
    let p = sample("foo");
    assert_eq!(get_pkg_data(200, &package_to_json(&p)), Ok(p));
}

#[test]
fn a_404_is_package_not_found() {
    assert_eq!(get_pkg_data(404, ""), Err(InstallError::PackageNotFound));
}

#[test]
fn another_status_is_a_server_error() {
    assert_eq!(get_pkg_data(500, ""), Err(InstallError::ServerError(500)));
    assert_eq!(get_pkg_data(301, "{}"), Err(InstallError::ServerError(301)));
}

#[test]
fn an_undecodable_body_is_a_parse_error() {
    assert_eq!(get_pkg_data(200, "not json"), Err(InstallError::ResponseParseError));
}

#[test]
fn the_package_list_decodes() {
    let l = vec![sample("a"), sample("b")];
    assert_eq!(list_all_packages(200, &package_list_to_json(&l)), Ok(l));
    assert_eq!(list_all_packages(500, "[]"), Err(InstallError::ServerError(500)));
    assert_eq!(list_all_packages(200, "{"), Err(InstallError::ResponseParseError));
}

#[test]
fn run_package_joins_the_install_path() {
    let l = vec![sample("foo"), sample("bar")];
    let path = run_package(&l, "/opt/pkgs", "bar").unwrap();
    assert_eq!(path, "/opt/pkgs/bar/bin/bar");
}

#[test]
fn run_package_refuses_an_unregistered_name() {
    let l = vec![sample("foo")];
    assert_eq!(run_package(&l, "/opt/pkgs", "baz"), Err(InstallError::PackageNotFound));
}

#[test]
fn run_package_needs_an_executable() {
    let mut p = sample("foo");
    p.executable_path = None;
    assert_eq!(run_package(&vec![p], "/opt/pkgs", "foo"), Err(InstallError::MissingExecutablePath));
}

#[test]
fn run_package_takes_the_first_entry_with_the_name() {
    let mut first = sample("foo");
    first.executable_path = Some("bin/one".to_string());
    let mut second = sample("foo");
    second.executable_path = Some("bin/two".to_string());
    let path = run_package(&vec![first, second], "/p", "foo").unwrap();
    assert_eq!(path, "/p/foo/bin/one");
}
