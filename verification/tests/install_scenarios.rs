//! Whole installs, replayed through the orchestrator with real archives.
use dcspkg::Package;
use dcspkg::checksum::archive_checksum;
use dcspkg::config::DcspkgConfig;
use dcspkg::config::Registry;
use dcspkg::config::Server;
use dcspkg::errors::InstallError;
use dcspkg::errors::Stage;
use dcspkg::errors::StageError;
use dcspkg::install::Action;
use dcspkg::install::Event;
use dcspkg::install::install_package;
use dcspkg::json::package_list_from_json;
use dcspkg::json::package_to_json;

fn config() -> DcspkgConfig {
    DcspkgConfig {
        server: Server { url: "http://catalog".to_string() },
        registry: Registry::under("/tmp/store"),
    }
}

fn gzip_tar(entries: &[(&str, &[u8])]) -> Vec<u8> {
    let enc = flate2::write::GzEncoder::new(Vec::new(), flate2::Compression::default());
    let mut tar = tar::Builder::new(enc);
    for (path, data) in entries {
        let mut header = tar::Header::new_gnu();
        header.set_size(data.len() as u64);
        header.set_mode(0o644);
        header.set_cksum();
        tar.append_data(&mut header, path, *data).unwrap();
    }
    tar.into_inner().unwrap().finish().unwrap()
}

/// A gzip-compressed tar stream whose single entry carries this raw
/// name, bypassing the writer's own path checks.
fn gzip_tar_raw_name(name: &[u8], data: &[u8]) -> Vec<u8> {
    let enc = flate2::write::GzEncoder::new(Vec::new(), flate2::Compression::default());
    let mut tar = tar::Builder::new(enc);
    let mut header = tar::Header::new_gnu();
    header.as_gnu_mut().unwrap().name[..name.len()].copy_from_slice(name);
    header.set_size(data.len() as u64);
    header.set_mode(0o644);
    header.set_cksum();
    tar.append(&header, data).unwrap();
    tar.into_inner().unwrap().finish().unwrap()
}

fn descriptor(name: &str, crc: u32) -> Package {
    Package {
        name: name.to_string(),
        description: None,
        version: None,
        image_url: None,
        archive_path: format!("{name}.dcspkg"),
        executable_path: None,
        crc,
        has_installer: false,
        add_to_path: false,
    }
}

fn failure(stage: Stage, cause: InstallError) -> Option<Result<(), StageError>> {
    Some(Err(StageError { stage, cause }))
}

fn has_write_registry(actions: &[Action]) -> bool {
    actions.iter().any(|a| matches!(a, Action::WriteRegistry { .. }))
}

/// A plain install: matching archive, no installer, no path link. The
/// registry gains exactly one entry equal to the descriptor, and no
/// symlink is asked for.
#[test]
fn plain_install_succeeds_and_registers_one_entry() {
    let archive = gzip_tar(&[("readme", b"hello"), ("data/blob", b"\x00\x01")]);
    let desc = descriptor("foo", archive_checksum(&archive));
    let events = vec![
        Event::MetadataResponse { status: 200, body: package_to_json(&desc) },
        Event::DirsCreated,
        Event::ArchiveResponse { status: 200, body: archive },
        Event::FilesWritten,
        Event::RegistryMissing,
        Event::RegistryWritten,
    ];
    let (actions, result) = install_package(&config(), "foo", events);
    assert_eq!(result, Some(Ok(())));
    assert_eq!(actions.len(), 6);
    assert!(matches!(&actions[0], Action::FetchMetadata { url } if url == "http://catalog/pkgdata/foo"));
    assert!(matches!(&actions[1], Action::CreateDirs { path } if path == "/tmp/store/packages"));
    assert!(matches!(&actions[2], Action::FetchArchive { url } if url == "http://catalog/download/foo.dcspkg"));
    match &actions[3] {
        Action::WriteFiles { dir, files } => {
            assert_eq!(dir, "/tmp/store/packages/foo");
            assert_eq!(files.len(), 2);
            assert_eq!(files[0].path, "readme");
            assert_eq!(files[0].data, b"hello");
            assert_eq!(files[1].path, "data/blob");
            assert_eq!(files[1].data, b"\x00\x01");
            assert!(!files[0].is_dir);
        },
        other => panic!("expected the file writes, got {other:?}"),
    }
    assert!(matches!(&actions[4], Action::ReadRegistry { path } if path == "/tmp/store/registry.json"));
    match &actions[5] {
        Action::WriteRegistry { path, content } => {
            assert_eq!(path, "/tmp/store/registry.json");
            let l = package_list_from_json(content).unwrap();
            assert_eq!(l, vec![desc]);
        },
        other => panic!("expected the registry rewrite, got {other:?}"),
    }
    assert!(!actions.iter().any(|a| matches!(a, Action::CreateLink { .. })));
    assert!(!actions.iter().any(|a| matches!(a, Action::RunScript { .. })));
}

/// Install over an existing registry holding the same name: a second
/// entry is appended, nothing deduplicated.
#[test]
fn reinstalling_appends_a_second_entry() {
    let archive = gzip_tar(&[("readme", b"hello")]);
    let desc = descriptor("foo", archive_checksum(&archive));
    let run = |registry_content: Option<String>| {
        let reg_event = match registry_content {
            Some(content) => Event::RegistryContent { content },
            None => Event::RegistryMissing,
        };
        let events = vec![
            Event::MetadataResponse { status: 200, body: package_to_json(&desc) },
            Event::DirsCreated,
            Event::ArchiveResponse { status: 200, body: archive.clone() },
            Event::FilesWritten,
            reg_event,
            Event::RegistryWritten,
        ];
        install_package(&config(), "foo", events)
    };
    let (actions1, result1) = run(None);
    assert_eq!(result1, Some(Ok(())));
    let first_written = match &actions1[5] {
        Action::WriteRegistry { content, .. } => content.clone(),
        other => panic!("expected the registry rewrite, got {other:?}"),
    };
    let (actions2, result2) = run(Some(first_written));
    assert_eq!(result2, Some(Ok(())));
    match &actions2[5] {
        Action::WriteRegistry { content, .. } => {
            let l = package_list_from_json(content).unwrap();
            assert_eq!(l.len(), 2);
            assert_eq!(l[0].name, "foo");
            assert_eq!(l[1].name, "foo");
        },
        other => panic!("expected the registry rewrite, got {other:?}"),
    }
}

/// An archive entry reaching outside the target directory halts the
/// install as `MaliciousArchive` before any file write is asked for.
#[test]
fn a_traversing_entry_is_rejected_and_nothing_is_written() {
    let archive = gzip_tar_raw_name(b"../../evil", b"boom");
    let desc = descriptor("foo", archive_checksum(&archive));
    let events = vec![
        Event::MetadataResponse { status: 200, body: package_to_json(&desc) },
        Event::DirsCreated,
        Event::ArchiveResponse { status: 200, body: archive },
        Event::FilesWritten,
        Event::RegistryMissing,
    ];
    let (actions, result) = install_package(&config(), "foo", events);
    assert_eq!(result, failure(Stage::DownloadAndVerify, InstallError::MaliciousArchive));
    assert!(!actions.iter().any(|a| matches!(a, Action::WriteFiles { .. })));
    assert!(!has_write_registry(&actions));
}

/// A checksum mismatch is detected after extraction and halts the install
/// before the registry is touched.
#[test]
fn a_checksum_mismatch_fails_after_extraction() {
    let archive = gzip_tar(&[("readme", b"hello")]);
    let desc = descriptor("foo", archive_checksum(&archive) ^ 1);
    let events = vec![
        Event::MetadataResponse { status: 200, body: package_to_json(&desc) },
        Event::DirsCreated,
        Event::ArchiveResponse { status: 200, body: archive },
        Event::FilesWritten,
        Event::RegistryMissing,
    ];
    let (actions, result) = install_package(&config(), "foo", events);
    assert_eq!(result, failure(Stage::DownloadAndVerify, InstallError::ChecksumMismatch));
    // extraction was asked for: the hazard is detected only afterwards
    assert!(actions.iter().any(|a| matches!(a, Action::WriteFiles { .. })));
    assert!(!has_write_registry(&actions));
}

/// A descriptor asking for a path link without naming an executable fails
/// as `MissingExecutablePath`, before any registry write.
#[test]
fn add_to_path_without_an_executable_fails() {
    let archive = gzip_tar(&[("readme", b"hello")]);
    let mut desc = descriptor("foo", archive_checksum(&archive));
    desc.add_to_path = true;
    desc.executable_path = None;
    let events = vec![
        Event::MetadataResponse { status: 200, body: package_to_json(&desc) },
        Event::DirsCreated,
        Event::ArchiveResponse { status: 200, body: archive },
        Event::FilesWritten,
        Event::RegistryMissing,
        Event::RegistryWritten,
    ];
    let (actions, result) = install_package(&config(), "foo", events);
    assert_eq!(result, failure(Stage::LinkExecutable, InstallError::MissingExecutablePath));
    assert!(!has_write_registry(&actions));
}

/// A 404 for the metadata fails as `PackageNotFound`; no directory is
/// ever asked for.
#[test]
fn a_missing_package_fails_before_any_directory() {
    let events = vec![
        Event::MetadataResponse { status: 404, body: String::new() },
        Event::DirsCreated,
    ];
    let (actions, result) = install_package(&config(), "bar", events);
    assert_eq!(result, failure(Stage::FetchMetadata, InstallError::PackageNotFound));
    assert_eq!(actions.len(), 1);
    assert!(matches!(&actions[0], Action::FetchMetadata { url } if url == "http://catalog/pkgdata/bar"));
}

/// An install script exiting non-zero fails as `InstallScriptFailed`; the
/// script is not deleted and the registry is untouched.
#[test]
fn a_failing_install_script_halts_and_keeps_the_script() {
    let archive = gzip_tar(&[("install.sh", b"exit 1")]);
    let mut desc = descriptor("foo", archive_checksum(&archive));
    desc.has_installer = true;
    let events = vec![
        Event::MetadataResponse { status: 200, body: package_to_json(&desc) },
        Event::DirsCreated,
        Event::ArchiveResponse { status: 200, body: archive },
        Event::FilesWritten,
        Event::ScriptExited { code: 1 },
        Event::RegistryMissing,
    ];
    let (actions, result) = install_package(&config(), "foo", events);
    assert_eq!(result, failure(Stage::RunInstaller, InstallError::InstallScriptFailed(1)));
    assert!(actions.iter().any(|a| matches!(a, Action::RunScript { .. })));
    assert!(!actions.iter().any(|a| matches!(a, Action::DeleteScript { .. })));
    assert!(!has_write_registry(&actions));
}

/// An install script exiting zero is deleted, and the install goes on to
/// the registry.
#[test]
fn a_successful_install_script_is_deleted() {
    let archive = gzip_tar(&[("install.sh", b"exit 0")]);
    let mut desc = descriptor("foo", archive_checksum(&archive));
    desc.has_installer = true;
    let events = vec![
        Event::MetadataResponse { status: 200, body: package_to_json(&desc) },
        Event::DirsCreated,
        Event::ArchiveResponse { status: 200, body: archive },
        Event::FilesWritten,
        Event::ScriptExited { code: 0 },
        Event::ScriptDeleted,
        Event::RegistryMissing,
        Event::RegistryWritten,
    ];
    let (actions, result) = install_package(&config(), "foo", events);
    assert_eq!(result, Some(Ok(())));
    assert!(matches!(&actions[4], Action::RunScript { dir }
        if dir == "/tmp/store/packages/foo"));
    assert!(matches!(&actions[5], Action::DeleteScript { path }
        if path == "/tmp/store/packages/foo/install.sh"));
}

/// A missing install script is a server integrity violation.
#[test]
fn a_missing_install_script_fails() {
    let archive = gzip_tar(&[("readme", b"no script here")]);
    let mut desc = descriptor("foo", archive_checksum(&archive));
    desc.has_installer = true;
    let events = vec![
        Event::MetadataResponse { status: 200, body: package_to_json(&desc) },
        Event::DirsCreated,
        Event::ArchiveResponse { status: 200, body: archive },
        Event::FilesWritten,
        Event::ScriptMissing,
    ];
    let (_, result) = install_package(&config(), "foo", events);
    assert_eq!(result, failure(Stage::RunInstaller, InstallError::MissingInstallScript));
}

/// A descriptor asking for a path link gets its symlink: named after the
/// package, pointing at the declared executable inside the install
/// directory.
#[test]
fn add_to_path_links_the_declared_name() {
    let archive = gzip_tar(&[("bin/tool", b"#!")]);
    let mut desc = descriptor("foo", archive_checksum(&archive));
    desc.add_to_path = true;
    desc.executable_path = Some("bin/tool".to_string());
    let events = vec![
        Event::MetadataResponse { status: 200, body: package_to_json(&desc) },
        Event::DirsCreated,
        Event::ArchiveResponse { status: 200, body: archive },
        Event::FilesWritten,
        Event::LinkCreated,
        Event::RegistryMissing,
        Event::RegistryWritten,
    ];
    let (actions, result) = install_package(&config(), "foo", events);
    assert_eq!(result, Some(Ok(())));
    assert!(matches!(&actions[4], Action::CreateLink { bin_dir, link, target }
        if bin_dir == "/tmp/store/bin"
            && link == "/tmp/store/bin/foo"
            && target == "/tmp/store/packages/foo/bin/tool"));
}

/// A network failure at any stage halts with `NetworkError`, wrapped with
/// that stage.
#[test]
fn network_failures_carry_their_stage() {
    let (_, result) = install_package(&config(), "foo", vec![Event::NetFailed]);
    assert_eq!(result, failure(Stage::FetchMetadata, InstallError::NetworkError));

    let archive = gzip_tar(&[("readme", b"x")]);
    let desc = descriptor("foo", archive_checksum(&archive));
    let events = vec![
        Event::MetadataResponse { status: 200, body: package_to_json(&desc) },
        Event::DirsCreated,
        Event::NetFailed,
    ];
    let (_, result) = install_package(&config(), "foo", events);
    assert_eq!(result, failure(Stage::DownloadAndVerify, InstallError::NetworkError));
}

/// A non-200 archive response is a server error at the download stage.
#[test]
fn a_failing_archive_download_is_a_server_error() {
    let archive = gzip_tar(&[("readme", b"x")]);
    let desc = descriptor("foo", archive_checksum(&archive));
    let events = vec![
        Event::MetadataResponse { status: 200, body: package_to_json(&desc) },
        Event::DirsCreated,
        Event::ArchiveResponse { status: 503, body: vec![] },
    ];
    let (_, result) = install_package(&config(), "foo", events);
    assert_eq!(result, failure(Stage::DownloadAndVerify, InstallError::ServerError(503)));
}

/// A corrupt registry halts the last stage; nothing is rewritten.
#[test]
fn a_corrupt_registry_halts_the_update() {
    let archive = gzip_tar(&[("readme", b"x")]);
    let desc = descriptor("foo", archive_checksum(&archive));
    let events = vec![
        Event::MetadataResponse { status: 200, body: package_to_json(&desc) },
        Event::DirsCreated,
        Event::ArchiveResponse { status: 200, body: archive },
        Event::FilesWritten,
        Event::RegistryContent { content: "not a list".to_string() },
    ];
    let (actions, result) = install_package(&config(), "foo", events);
    assert_eq!(result, failure(Stage::UpdateRegistry, InstallError::RegistryCorrupt));
    assert!(!has_write_registry(&actions));
}

/// When the events run out mid-install, there is no verdict.
#[test]
fn an_unfinished_install_reports_nothing() {
    let (actions, result) = install_package(&config(), "foo", vec![]);
    assert_eq!(result, None);
    assert_eq!(actions.len(), 1);
}

/// An event that does not answer the pending action changes nothing; the
/// answer that follows it is still taken.
#[test]
fn a_mismatched_event_is_ignored() {
    let events = vec![
        Event::DirsCreated,
        Event::MetadataResponse { status: 404, body: String::new() },
    ];
    let (actions, result) = install_package(&config(), "foo", events);
    assert_eq!(result, failure(Stage::FetchMetadata, InstallError::PackageNotFound));
    assert_eq!(actions.len(), 1);
}

/// A body that is no gzip-compressed tar stream cannot be decoded.
#[test]
fn an_undecodable_archive_body_fails() {
    let desc = descriptor("foo", 0);
    let events = vec![
        Event::MetadataResponse { status: 200, body: package_to_json(&desc) },
        Event::DirsCreated,
        Event::ArchiveResponse { status: 200, body: b"not a gzip stream".to_vec() },
    ];
    let (actions, result) = install_package(&config(), "foo", events);
    assert_eq!(result, failure(Stage::DownloadAndVerify, InstallError::ResponseParseError));
    assert!(!actions.iter().any(|a| matches!(a, Action::WriteFiles { .. })));
}

/// A symlink that cannot be created fails the linking stage; an existing
/// link is never silently overwritten, the caller reports the failure.
#[test]
fn a_failing_link_halts_the_install() {
    let archive = gzip_tar(&[("bin/tool", b"#!")]);
    let mut desc = descriptor("foo", archive_checksum(&archive));
    desc.add_to_path = true;
    desc.executable_path = Some("bin/tool".to_string());
    let events = vec![
        Event::MetadataResponse { status: 200, body: package_to_json(&desc) },
        Event::DirsCreated,
        Event::ArchiveResponse { status: 200, body: archive },
        Event::FilesWritten,
        Event::LinkFailed,
        Event::RegistryMissing,
    ];
    let (actions, result) = install_package(&config(), "foo", events);
    assert_eq!(result, failure(Stage::LinkExecutable, InstallError::LinkCreationFailed));
    assert!(!has_write_registry(&actions));
}

/// A failing filesystem operation halts the stage it happened in.
#[test]
fn a_filesystem_failure_carries_its_stage() {
    let archive = gzip_tar(&[("readme", b"x")]);
    let desc = descriptor("foo", archive_checksum(&archive));
    let events = vec![
        Event::MetadataResponse { status: 200, body: package_to_json(&desc) },
        Event::FsFailed,
    ];
    let (_, result) = install_package(&config(), "foo", events);
    assert_eq!(result, failure(Stage::CreateDirectories, InstallError::FilesystemError));

    let events = vec![
        Event::MetadataResponse { status: 200, body: package_to_json(&desc) },
        Event::DirsCreated,
        Event::ArchiveResponse { status: 200, body: archive },
        Event::FsFailed,
    ];
    let (_, result) = install_package(&config(), "foo", events);
    assert_eq!(result, failure(Stage::DownloadAndVerify, InstallError::FilesystemError));
}
