//! The tool's configuration, passed explicitly into the library: the
//! catalog server's address and the local registry layout. Loading a
//! configuration file is the caller's business; the library only defines
//! the value and its defaults.
use vstd::prelude::*;

use vstd::string::StringExecFns;

verus! {

/// The whole configuration: where the catalog is, and where installed
/// packages live.
#[derive(Debug, Clone, PartialEq, Eq)]
pub struct DcspkgConfig {
    pub server: Server,
    pub registry: Registry,
}

/// The catalog server's base address.
#[derive(Debug, Clone, PartialEq, Eq)]
pub struct Server {
    pub url: String,
}

/// The local layout: the registry file, the directory packages are
/// unpacked under, and the directory executables are linked into.
#[derive(Debug, Clone, PartialEq, Eq)]
pub struct Registry {
    pub registry_file: String,
    pub install_dir: String,
    pub bin_dir: String,
}

impl Default for Server {
    /// The public catalog server.
    fn default() -> (r: Server)
        ensures
            r.url@ == "https://dcspkg.uwcs.co.uk"@,
    {
        Server { url: "https://dcspkg.uwcs.co.uk".to_owned() }
    }
}

impl Registry {
    /// The registry layout below one base directory: the registry file,
    /// the package directory and the bin directory side by side.
    pub fn under(base: &str) -> (r: Registry)
        ensures
            r.registry_file@ == base@ + "/registry.json"@,
            r.install_dir@ == base@ + "/packages"@,
            r.bin_dir@ == base@ + "/bin"@,
    {
        let mut registry_file = base.to_owned();
        registry_file.append("/registry.json");
        let mut install_dir = base.to_owned();
        install_dir.append("/packages");
        let mut bin_dir = base.to_owned();
        bin_dir.append("/bin");
        Registry { registry_file, install_dir, bin_dir }
    }
}

impl Default for Registry {
    /// The layout below `.dcspkg`; the caller usually puts that directory
    /// under the user's home directory and builds the layout with
    /// [`Registry::under`] instead.
    fn default() -> (r: Registry)
        ensures
            r.registry_file@ == ".dcspkg"@ + "/registry.json"@,
            r.install_dir@ == ".dcspkg"@ + "/packages"@,
            r.bin_dir@ == ".dcspkg"@ + "/bin"@,
    {
        Registry::under(".dcspkg")
    }
}

impl Default for DcspkgConfig {
    /// The public server and the default local layout.
    fn default() -> (r: DcspkgConfig)
        ensures
            r.server.url@ == "https://dcspkg.uwcs.co.uk"@,
            r.registry.registry_file@ == ".dcspkg"@ + "/registry.json"@,
            r.registry.install_dir@ == ".dcspkg"@ + "/packages"@,
            r.registry.bin_dir@ == ".dcspkg"@ + "/bin"@,
    {
        DcspkgConfig { server: Server::default(), registry: Registry::default() }
    }
}

} // verus!
