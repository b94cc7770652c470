//! The configuration value and its defaults.
use dcspkg::Package;
use dcspkg::cli::Cli;
use dcspkg::cli::Command;
use dcspkg::config::DcspkgConfig;
use dcspkg::config::Registry;
use dcspkg::config::Server;

#[test]
fn the_default_server_is_the_public_catalog() {
    assert_eq!(Server::default().url, "https://dcspkg.uwcs.co.uk");
}

#[test]
fn the_registry_layout_sits_below_one_base() {
    let r = Registry::under("/home/u/.dcspkg");
    assert_eq!(r.registry_file, "/home/u/.dcspkg/registry.json");
    assert_eq!(r.install_dir, "/home/u/.dcspkg/packages");
    assert_eq!(r.bin_dir, "/home/u/.dcspkg/bin");
}

#[test]
fn the_default_config_composes_both_defaults() {
    let c = DcspkgConfig::default();
    assert_eq!(c.server.url, "https://dcspkg.uwcs.co.uk");
    assert_eq!(c.registry.registry_file, ".dcspkg/registry.json");
}

#[test]
fn an_empty_descriptor_has_nothing_set() {
    let p = Package::default();
    assert_eq!(p.name, "");
    assert_eq!(p.crc, 0);
    assert!(!p.has_installer);
    assert!(!p.add_to_path);
    assert!(p.executable_path.is_none());
}

#[test]
fn a_parsed_invocation_is_plain_data() {
    let cli = Cli { verbose: 2, command: Command::Install { package: "foo".to_string() } };
    assert_eq!(cli.verbose, 2);
    match cli.command {
        Command::Install { package } => assert_eq!(package, "foo"),
        _ => panic!("expected the install command"),
    }
}
