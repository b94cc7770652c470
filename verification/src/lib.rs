//! A small package-manager client library.
//!
//! A catalog server publishes installable packages: metadata plus a
//! gzip-compressed tar archive. This library holds the client-side logic of
//! one install: decoding catalog responses, verifying and planning the
//! unpacking of an archive, deciding on the post-install script and the
//! executable symlink, and keeping the local registry of installed packages.
//! All input and output (network, filesystem, child processes) is performed
//! by the caller, which drives the [`install::Installer`] state machine and
//! hands each outcome back as an [`install::Event`].
use vstd::prelude::*;

use vstd::string::StringExecFns;

pub mod archive;
pub mod checksum;
pub mod cli;
pub mod config;
pub mod errors;
pub mod install;
pub mod json;
pub mod registry;

verus! {

/// Metadata for one installable package, as the catalog server publishes it.
///
/// A descriptor is immutable once fetched and is trusted as given, except for
/// `crc`, which is re-derived from the downloaded archive bytes.
#[derive(Debug, Clone, PartialEq, Eq)]
pub struct Package {
    /// The package's name; the unique key of the catalog and of the registry.
    pub name: String,
    /// A short description of the package, if the server has one.
    pub description: Option<String>,
    /// The package's version string, if the server has one.
    pub version: Option<String>,
    /// A URL pointing at an image for the package, if the server has one.
    pub image_url: Option<String>,
    /// The locator of the package's archive below the server's download root.
    pub archive_path: String,
    /// The relative path of the executable inside the archive, if any.
    pub executable_path: Option<String>,
    /// The CRC-32 checksum of the compressed archive bytes.
    pub crc: u32,
    /// Whether the archive carries an `install.sh` that must be run.
    pub has_installer: bool,
    /// Whether the executable is to be linked into the shared bin directory.
    pub add_to_path: bool,
}

/// The mathematical value of a [`Package`]: each text field as a sequence of
/// characters.
pub struct PackageModel {
    pub name: Seq<char>,
    pub description: Option<Seq<char>>,
    pub version: Option<Seq<char>>,
    pub image_url: Option<Seq<char>>,
    pub archive_path: Seq<char>,
    pub executable_path: Option<Seq<char>>,
    pub crc: u32,
    pub has_installer: bool,
    pub add_to_path: bool,
}

/// The view of an optional text field.
pub open spec fn opt_text_view(o: Option<String>) -> Option<Seq<char>> {
    match o {
        Option::Some(s) => Option::Some(s@),
        Option::None => Option::None,
    }
}

impl View for Package {
    type V = PackageModel;

    open spec fn view(&self) -> PackageModel {
        PackageModel {
            name: self.name@,
            description: opt_text_view(self.description),
            version: opt_text_view(self.version),
            image_url: opt_text_view(self.image_url),
            archive_path: self.archive_path@,
            executable_path: opt_text_view(self.executable_path),
            crc: self.crc,
            has_installer: self.has_installer,
            add_to_path: self.add_to_path,
        }
    }
}

/// Copies an optional text field, keeping its value.
fn clone_opt_text(o: &Option<String>) -> (r: Option<String>)
    ensures
        opt_text_view(r) == opt_text_view(*o),
{
    match o {
        Option::Some(s) => Option::Some(s.clone()),
        Option::None => Option::None,
    }
}

impl Package {
    /// Copies the descriptor, keeping its value.
    pub fn duplicate(&self) -> (r: Package)
        ensures
            r@ == self@,
    {
        let r = Package {
            name: self.name.clone(),
            description: clone_opt_text(&self.description),
            version: clone_opt_text(&self.version),
            image_url: clone_opt_text(&self.image_url),
            archive_path: self.archive_path.clone(),
            executable_path: clone_opt_text(&self.executable_path),
            crc: self.crc,
            has_installer: self.has_installer,
            add_to_path: self.add_to_path,
        };
        r
    }
}

impl Default for Package {
    /// An empty descriptor: every text field empty, every flag off.
    fn default() -> (r: Package)
        ensures
            r@.name == Seq::<char>::empty(),
            r@.description is None,
            r@.version is None,
            r@.image_url is None,
            r@.archive_path == Seq::<char>::empty(),
            r@.executable_path is None,
            r@.crc == 0,
            !r@.has_installer,
            !r@.add_to_path,
    {
        Package {
            name: String::new(),
            description: Option::None,
            version: Option::None,
            image_url: Option::None,
            archive_path: String::new(),
            executable_path: Option::None,
            crc: 0,
            has_installer: false,
            add_to_path: false,
        }
    }
}

// ---------------------------------------------------------------------------
// The catalog client's decoding half: the network request is the caller's,
// the status code and body come here.
// ---------------------------------------------------------------------------

/// What the catalog's answer to one package's metadata request denotes:
/// 404 is a package the server does not have, any other non-200 status a
/// server error, and a 200 body must decode to one descriptor.
pub open spec fn metadata_model(status: u16, body: Seq<char>) -> Result<
    PackageModel,
    crate::errors::InstallError,
> {
    if status == 404 {
        Result::Err(crate::errors::InstallError::PackageNotFound)
    } else if status != 200 {
        Result::Err(crate::errors::InstallError::ServerError(status))
    } else {
        match crate::json::parse_package_complete(body) {
            Option::Some(p) => Result::Ok(p),
            Option::None => Result::Err(crate::errors::InstallError::ResponseParseError),
        }
    }
}

/// Decodes the catalog's answer to one package's metadata request.
pub fn get_pkg_data(status: u16, body: &str) -> (r: Result<Package, crate::errors::InstallError>)
    ensures
        match metadata_model(status, body@) {
            Result::Ok(pm) => r matches Result::Ok(p) && p@ == pm,
            Result::Err(e) => r matches Result::Err(e2) && e2 == e,
        },
{
    if status == 404 {
        Result::Err(crate::errors::InstallError::PackageNotFound)
    } else if status != 200 {
        Result::Err(crate::errors::InstallError::ServerError(status))
    } else {
        match crate::json::package_from_json(body) {
            Option::Some(p) => Result::Ok(p),
            Option::None => Result::Err(crate::errors::InstallError::ResponseParseError),
        }
    }
}

/// What the catalog's answer to the list request denotes: a non-200
/// status is a server error, and a 200 body must decode to one array of
/// descriptors.
pub open spec fn list_model(status: u16, body: Seq<char>) -> Result<
    Seq<PackageModel>,
    crate::errors::InstallError,
> {
    if status != 200 {
        Result::Err(crate::errors::InstallError::ServerError(status))
    } else {
        match crate::json::parse_package_list(body) {
            Option::Some(l) => Result::Ok(l),
            Option::None => Result::Err(crate::errors::InstallError::ResponseParseError),
        }
    }
}

/// Decodes the catalog's answer to the request for the list of all
/// packages available for installation.
pub fn list_all_packages(status: u16, body: &str) -> (r: Result<
    Vec<Package>,
    crate::errors::InstallError,
>)
    ensures
        match list_model(status, body@) {
            Result::Ok(lm) => r matches Result::Ok(l) && crate::json::pkg_views(l@) == lm,
            Result::Err(e) => r matches Result::Err(e2) && e2 == e,
        },
{
    if status != 200 {
        Result::Err(crate::errors::InstallError::ServerError(status))
    } else {
        match crate::json::package_list_from_json(body) {
            Option::Some(l) => Result::Ok(l),
            Option::None => Result::Err(crate::errors::InstallError::ResponseParseError),
        }
    }
}

// ---------------------------------------------------------------------------
// Launching an installed package: the registry lookup and the executable's
// path; replacing the process is the caller's.
// ---------------------------------------------------------------------------

/// The first registered descriptor with the given name.
pub open spec fn first_with_name(l: Seq<PackageModel>, name: Seq<char>) -> Option<PackageModel>
    decreases l.len(),
{
    if l.len() == 0 {
        Option::None
    } else if l[0].name == name {
        Option::Some(l[0])
    } else {
        first_with_name(l.drop_first(), name)
    }
}

/// The path of the executable to launch for an installed package: the
/// package's directory under the install directory, then its declared
/// relative executable path. An unregistered name is refused as
/// `PackageNotFound`, a package without an executable as
/// `MissingExecutablePath`.
pub open spec fn run_path_model(l: Seq<PackageModel>, dir: Seq<char>, name: Seq<char>) -> Result<
    Seq<char>,
    crate::errors::InstallError,
> {
    match first_with_name(l, name) {
        Option::None => Result::Err(crate::errors::InstallError::PackageNotFound),
        Option::Some(p) => match p.executable_path {
            Option::None => Result::Err(crate::errors::InstallError::MissingExecutablePath),
            Option::Some(rel) => Result::Ok(dir + "/"@ + p.name + "/"@ + rel),
        },
    }
}

/// Computes the path of the executable to launch for an installed
/// package, from the registry's entries.
pub fn run_package(packages: &Vec<Package>, install_dir: &str, package: &str) -> (r: Result<
    String,
    crate::errors::InstallError,
>)
    ensures
        match run_path_model(crate::json::pkg_views(packages@), install_dir@, package@) {
            Result::Ok(path) => r matches Result::Ok(s) && s@ == path,
            Result::Err(e) => r matches Result::Err(e2) && e2 == e,
        },
{
    let ghost all = crate::json::pkg_views(packages@);
    let n = packages.len();
    let mut i: usize = 0;
    assert(all.skip(0) =~= all);
    while i < n
        invariant
            i <= n,
            n == packages@.len(),
            all == crate::json::pkg_views(packages@),
            first_with_name(all, package@) == first_with_name(all.skip(i as int), package@),
        decreases n - i,
    {
        proof {
            assert(all.skip(i as int)[0] == all[i as int]);
            assert(all.skip(i as int).drop_first() =~= all.skip(i + 1));
        }
        if crate::json::text_eq(packages[i].name.as_str(), package) {
            assert(first_with_name(all, package@) == Option::Some(all[i as int]));
            match &packages[i].executable_path {
                Option::None => {
                    return Result::Err(crate::errors::InstallError::MissingExecutablePath);
                },
                Option::Some(rel) => {
                    let mut out = install_dir.to_owned();
                    out.append("/");
                    out.append(packages[i].name.as_str());
                    out.append("/");
                    out.append(rel.as_str());
                    return Result::Ok(out);
                },
            }
        }
        i += 1;
    }
    proof {
        assert(all.skip(n as int) =~= Seq::<PackageModel>::empty());
    }
    Result::Err(crate::errors::InstallError::PackageNotFound)
}

} // verus!
