//! The install orchestrator: one install as a strictly sequential state
//! machine. The machine decides; the caller performs.
//!
//! The stages run in one fixed order — fetch metadata, create directories,
//! download and verify, run the installer (when the descriptor asks for
//! it), link the executable (when the descriptor asks for it), update the
//! registry — and any stage failure halts the sequence at once, wrapped
//! with the stage's name. Nothing done before the failure is compensated:
//! created directories, extracted files, an already-run script and an
//! already-created symlink remain.
//!
//! The caller drives the machine: it performs each [`Action`] the machine
//! hands out — the network requests, the filesystem writes, the child
//! process — and reports what happened as the next [`Event`]. The machine
//! never touches the world itself, so every decision it takes is verified
//! against [`step_model`], the machine's mathematical transition function.
use vstd::prelude::*;

use vstd::string::StringExecFns;

use crate::Package;
use crate::PackageModel;
use crate::archive::ArchiveEntry;
use crate::archive::all_entries_safe;
use crate::archive::archive_entries_of;
use crate::archive::check_entries;
use crate::archive::decode_archive;
use crate::archive::entry_views;
use crate::checksum::archive_checksum;
use crate::checksum::crc32_of;
use crate::config::DcspkgConfig;
use crate::errors::InstallError;
use crate::errors::Stage;
use crate::errors::StageError;
use crate::json::json_package_list;
use crate::metadata_model;
use crate::registry::add_to_registry;
use crate::registry::registry_parse;

verus! {

// ---------------------------------------------------------------------------
// Events and actions
// ---------------------------------------------------------------------------

/// What the caller reports back after performing one action.
#[derive(Debug, Clone, PartialEq, Eq)]
pub enum Event {
    /// A network request could not be made or completed.
    NetFailed,
    /// The metadata response: its status code and its body as text.
    MetadataResponse { status: u16, body: String },
    /// The directories were created.
    DirsCreated,
    /// A filesystem operation failed.
    FsFailed,
    /// The archive response: its status code and its raw body.
    ArchiveResponse { status: u16, body: Vec<u8> },
    /// The unpacked entries were written below the install directory.
    FilesWritten,
    /// There is no `install.sh` at the extracted root.
    ScriptMissing,
    /// The install script ran to completion and exited with this code.
    ScriptExited { code: i32 },
    /// The install script was deleted.
    ScriptDeleted,
    /// The symlink was created.
    LinkCreated,
    /// The symlink could not be created.
    LinkFailed,
    /// The registry file does not exist.
    RegistryMissing,
    /// The registry file's content, as text.
    RegistryContent { content: String },
    /// The registry file exists but does not hold text.
    RegistryUnreadable,
    /// The registry file was rewritten in full.
    RegistryWritten,
}

/// The mathematical value of an [`Event`].
pub enum EventModel {
    NetFailed,
    MetadataResponse { status: u16, body: Seq<char> },
    DirsCreated,
    FsFailed,
    ArchiveResponse { status: u16, body: Seq<u8> },
    FilesWritten,
    ScriptMissing,
    ScriptExited { code: i32 },
    ScriptDeleted,
    LinkCreated,
    LinkFailed,
    RegistryMissing,
    RegistryContent { content: Seq<char> },
    RegistryUnreadable,
    RegistryWritten,
}

impl View for Event {
    type V = EventModel;

    open spec fn view(&self) -> EventModel {
        match self {
            Event::NetFailed => EventModel::NetFailed,
            Event::MetadataResponse { status, body } => EventModel::MetadataResponse {
                status: *status,
                body: body@,
            },
            Event::DirsCreated => EventModel::DirsCreated,
            Event::FsFailed => EventModel::FsFailed,
            Event::ArchiveResponse { status, body } => EventModel::ArchiveResponse {
                status: *status,
                body: body@,
            },
            Event::FilesWritten => EventModel::FilesWritten,
            Event::ScriptMissing => EventModel::ScriptMissing,
            Event::ScriptExited { code } => EventModel::ScriptExited { code: *code },
            Event::ScriptDeleted => EventModel::ScriptDeleted,
            Event::LinkCreated => EventModel::LinkCreated,
            Event::LinkFailed => EventModel::LinkFailed,
            Event::RegistryMissing => EventModel::RegistryMissing,
            Event::RegistryContent { content } => EventModel::RegistryContent {
                content: content@,
            },
            Event::RegistryUnreadable => EventModel::RegistryUnreadable,
            Event::RegistryWritten => EventModel::RegistryWritten,
        }
    }
}

/// What the machine asks the caller to perform next.
#[derive(Debug, Clone, PartialEq, Eq)]
pub enum Action {
    /// Request this URL; report `MetadataResponse` or `NetFailed`.
    FetchMetadata { url: String },
    /// Create this directory and its parents; report `DirsCreated` or
    /// `FsFailed`.
    CreateDirs { path: String },
    /// Request this URL; report `ArchiveResponse` or `NetFailed`.
    FetchArchive { url: String },
    /// Write the entries below the directory, preserving structure and
    /// modes; report `FilesWritten` or `FsFailed`.
    WriteFiles { dir: String, files: Vec<ArchiveEntry> },
    /// Set the execute bits of `install.sh` at the extracted root, run it
    /// rooted there, capture its output and wait; report `ScriptExited`,
    /// `ScriptMissing` or `FsFailed`.
    RunScript { dir: String },
    /// Delete the install script; report `ScriptDeleted` or `FsFailed`.
    DeleteScript { path: String },
    /// Create the bin directory if absent, then symlink `link` to
    /// `target` without overwriting anything; report `LinkCreated` or
    /// `LinkFailed`.
    CreateLink { bin_dir: String, link: String, target: String },
    /// Read the registry file; report `RegistryContent`,
    /// `RegistryMissing`, `RegistryUnreadable` or `FsFailed`.
    ReadRegistry { path: String },
    /// Rewrite the registry file with this content; report
    /// `RegistryWritten` or `FsFailed`.
    WriteRegistry { path: String, content: String },
}

/// The mathematical value of an [`Action`].
pub enum ActionModel {
    FetchMetadata { url: Seq<char> },
    CreateDirs { path: Seq<char> },
    FetchArchive { url: Seq<char> },
    WriteFiles { dir: Seq<char>, files: Seq<(Seq<char>, bool, u32, Seq<u8>)> },
    RunScript { dir: Seq<char> },
    DeleteScript { path: Seq<char> },
    CreateLink { bin_dir: Seq<char>, link: Seq<char>, target: Seq<char> },
    ReadRegistry { path: Seq<char> },
    WriteRegistry { path: Seq<char>, content: Seq<char> },
}

impl View for Action {
    type V = ActionModel;

    open spec fn view(&self) -> ActionModel {
        match self {
            Action::FetchMetadata { url } => ActionModel::FetchMetadata { url: url@ },
            Action::CreateDirs { path } => ActionModel::CreateDirs { path: path@ },
            Action::FetchArchive { url } => ActionModel::FetchArchive { url: url@ },
            Action::WriteFiles { dir, files } => ActionModel::WriteFiles {
                dir: dir@,
                files: entry_views(files@),
            },
            Action::RunScript { dir } => ActionModel::RunScript { dir: dir@ },
            Action::DeleteScript { path } => ActionModel::DeleteScript { path: path@ },
            Action::CreateLink { bin_dir, link, target } => ActionModel::CreateLink {
                bin_dir: bin_dir@,
                link: link@,
                target: target@,
            },
            Action::ReadRegistry { path } => ActionModel::ReadRegistry { path: path@ },
            Action::WriteRegistry { path, content } => ActionModel::WriteRegistry {
                path: path@,
                content: content@,
            },
        }
    }
}

/// What one step of the machine yields.
#[derive(Debug, Clone, PartialEq, Eq)]
pub enum Outcome {
    /// The next action to perform.
    Next(Action),
    /// The install is complete.
    Done,
    /// The install halted at this stage failure.
    Fail(StageError),
    /// The event does not answer the pending action; nothing changed.
    Ignored,
}

/// The mathematical value of an [`Outcome`].
pub enum OutcomeModel {
    Next(ActionModel),
    Done,
    Fail(StageError),
    Ignored,
}

impl View for Outcome {
    type V = OutcomeModel;

    open spec fn view(&self) -> OutcomeModel {
        match self {
            Outcome::Next(a) => OutcomeModel::Next(a@),
            Outcome::Done => OutcomeModel::Done,
            Outcome::Fail(e) => OutcomeModel::Fail(*e),
            Outcome::Ignored => OutcomeModel::Ignored,
        }
    }
}

// ---------------------------------------------------------------------------
// The machine
// ---------------------------------------------------------------------------

/// Where the machine stands, strictly advancing.
#[derive(Debug, Clone, Copy, PartialEq, Eq, Structural)]
pub enum Phase {
    /// Waiting for the metadata response.
    FetchingMetadata,
    /// Waiting for the package directory to exist.
    CreatingDirs,
    /// Waiting for the archive response.
    Downloading,
    /// Waiting for the unpacked entries to be on disk.
    Extracting,
    /// Waiting for the install script's exit.
    RunningInstaller,
    /// Waiting for the install script's deletion.
    DeletingScript,
    /// Waiting for the symlink.
    Linking,
    /// Waiting for the registry file's content.
    ReadingRegistry,
    /// Waiting for the registry file's rewrite.
    WritingRegistry,
    /// The install completed.
    Done,
    /// The install halted at a stage failure.
    Failed,
}

/// One install in progress.
pub struct Installer {
    /// The catalog server's base address.
    pub server_url: String,
    /// The directory packages are unpacked under.
    pub package_dir: String,
    /// The directory executables are linked into.
    pub bin_dir: String,
    /// The registry file's path.
    pub registry_file: String,
    /// The requested package's name.
    pub pkg_name: String,
    /// This package's own directory: `{package_dir}/{name}`.
    pub install_dir: String,
    /// Where the machine stands.
    pub phase: Phase,
    /// The descriptor, once fetched.
    pub pkg: Option<Package>,
    /// The descriptor's declared checksum, once fetched.
    pub declared_crc: u32,
    /// The checksum derived from the downloaded stream.
    pub stream_crc: u32,
    /// The failure the machine halted at, if it did.
    pub failure: Option<StageError>,
}

/// The mathematical value of an [`Installer`].
pub struct InstallerModel {
    pub server_url: Seq<char>,
    pub package_dir: Seq<char>,
    pub bin_dir: Seq<char>,
    pub registry_file: Seq<char>,
    pub pkg_name: Seq<char>,
    pub install_dir: Seq<char>,
    pub phase: Phase,
    pub pkg: Option<PackageModel>,
    pub declared_crc: u32,
    pub stream_crc: u32,
    pub failure: Option<StageError>,
}

/// The view of an optional descriptor.
pub open spec fn opt_pkg_view(o: Option<Package>) -> Option<PackageModel> {
    match o {
        Option::Some(p) => Option::Some(p@),
        Option::None => Option::None,
    }
}

impl View for Installer {
    type V = InstallerModel;

    open spec fn view(&self) -> InstallerModel {
        InstallerModel {
            server_url: self.server_url@,
            package_dir: self.package_dir@,
            bin_dir: self.bin_dir@,
            registry_file: self.registry_file@,
            pkg_name: self.pkg_name@,
            install_dir: self.install_dir@,
            phase: self.phase,
            pkg: opt_pkg_view(self.pkg),
            declared_crc: self.declared_crc,
            stream_crc: self.stream_crc,
            failure: self.failure,
        }
    }
}

// ---------------------------------------------------------------------------
// The transition function
// ---------------------------------------------------------------------------

/// The URL of a package's metadata.
pub open spec fn metadata_url_model(server: Seq<char>, name: Seq<char>) -> Seq<char> {
    server + "/pkgdata/"@ + name
}

/// The URL of an archive below the server's download root.
pub open spec fn archive_url_model(server: Seq<char>, locator: Seq<char>) -> Seq<char> {
    server + "/download/"@ + locator
}

/// The install script's path at the extracted root.
pub open spec fn script_path_model(dir: Seq<char>) -> Seq<char> {
    dir + "/install.sh"@
}

/// The machine halted at a stage failure.
pub open spec fn fail_model(m: InstallerModel, stage: Stage, cause: InstallError) -> (
    InstallerModel,
    OutcomeModel,
) {
    let e = StageError { stage, cause };
    (
        InstallerModel { phase: Phase::Failed, failure: Option::Some(e), ..m },
        OutcomeModel::Fail(e),
    )
}

/// After a verified extraction and a finished installer: link the
/// executable when the descriptor asks for it, else go to the registry.
pub open spec fn after_script_model(m: InstallerModel, p: PackageModel) -> (
    InstallerModel,
    OutcomeModel,
) {
    if p.add_to_path {
        match p.executable_path {
            Option::None => fail_model(
                m,
                Stage::LinkExecutable,
                InstallError::MissingExecutablePath,
            ),
            Option::Some(rel) => (
                InstallerModel { phase: Phase::Linking, ..m },
                OutcomeModel::Next(
                    ActionModel::CreateLink {
                        bin_dir: m.bin_dir,
                        link: m.bin_dir + "/"@ + p.name,
                        target: m.install_dir + "/"@ + rel,
                    },
                ),
            ),
        }
    } else {
        registry_step_model(m)
    }
}

/// Go read the registry.
pub open spec fn registry_step_model(m: InstallerModel) -> (InstallerModel, OutcomeModel) {
    (
        InstallerModel { phase: Phase::ReadingRegistry, ..m },
        OutcomeModel::Next(ActionModel::ReadRegistry { path: m.registry_file }),
    )
}

/// Append the descriptor to what the registry file held and write it back.
pub open spec fn registry_write_model(
    m: InstallerModel,
    p: PackageModel,
    content: Option<Seq<char>>,
) -> (InstallerModel, OutcomeModel) {
    match registry_parse(content) {
        Option::None => fail_model(m, Stage::UpdateRegistry, InstallError::RegistryCorrupt),
        Option::Some(l) => (
            InstallerModel { phase: Phase::WritingRegistry, ..m },
            OutcomeModel::Next(
                ActionModel::WriteRegistry {
                    path: m.registry_file,
                    content: json_package_list(l.push(p)),
                },
            ),
        ),
    }
}

/// One step of the machine: what the event makes of the current state.
/// An event that does not answer the pending action is ignored.
#[verifier::opaque]
pub open spec fn step_model(m: InstallerModel, e: EventModel) -> (InstallerModel, OutcomeModel) {
    match m.phase {
        Phase::FetchingMetadata => match e {
            EventModel::NetFailed => fail_model(
                m,
                Stage::FetchMetadata,
                InstallError::NetworkError,
            ),
            EventModel::MetadataResponse { status, body } => match metadata_model(status, body) {
                Result::Err(cause) => fail_model(m, Stage::FetchMetadata, cause),
                Result::Ok(p) => (
                    InstallerModel {
                        phase: Phase::CreatingDirs,
                        pkg: Option::Some(p),
                        declared_crc: p.crc,
                        ..m
                    },
                    OutcomeModel::Next(ActionModel::CreateDirs { path: m.package_dir }),
                ),
            },
            _ => (m, OutcomeModel::Ignored),
        },
        Phase::CreatingDirs => match (e, m.pkg) {
            (EventModel::FsFailed, _) => fail_model(
                m,
                Stage::CreateDirectories,
                InstallError::FilesystemError,
            ),
            (EventModel::DirsCreated, Option::Some(p)) => (
                InstallerModel { phase: Phase::Downloading, ..m },
                OutcomeModel::Next(
                    ActionModel::FetchArchive {
                        url: archive_url_model(m.server_url, p.archive_path),
                    },
                ),
            ),
            _ => (m, OutcomeModel::Ignored),
        },
        Phase::Downloading => match e {
            EventModel::NetFailed => fail_model(
                m,
                Stage::DownloadAndVerify,
                InstallError::NetworkError,
            ),
            EventModel::ArchiveResponse { status, body } => {
                if status != 200 {
                    fail_model(m, Stage::DownloadAndVerify, InstallError::ServerError(status))
                } else {
                    match archive_entries_of(body) {
                        Option::None => fail_model(
                            m,
                            Stage::DownloadAndVerify,
                            InstallError::ResponseParseError,
                        ),
                        Option::Some(es) => {
                            if !all_entries_safe(es) {
                                fail_model(
                                    m,
                                    Stage::DownloadAndVerify,
                                    InstallError::MaliciousArchive,
                                )
                            } else {
                                (
                                    InstallerModel {
                                        phase: Phase::Extracting,
                                        stream_crc: crc32_of(body),
                                        ..m
                                    },
                                    OutcomeModel::Next(
                                        ActionModel::WriteFiles {
                                            dir: m.install_dir,
                                            files: es,
                                        },
                                    ),
                                )
                            }
                        },
                    }
                }
            },
            _ => (m, OutcomeModel::Ignored),
        },
        Phase::Extracting => match (e, m.pkg) {
            (EventModel::FsFailed, _) => fail_model(
                m,
                Stage::DownloadAndVerify,
                InstallError::FilesystemError,
            ),
            (EventModel::FilesWritten, Option::Some(p)) => {
                if m.stream_crc != m.declared_crc {
                    fail_model(m, Stage::DownloadAndVerify, InstallError::ChecksumMismatch)
                } else if p.has_installer {
                    (
                        InstallerModel { phase: Phase::RunningInstaller, ..m },
                        OutcomeModel::Next(ActionModel::RunScript { dir: m.install_dir }),
                    )
                } else {
                    after_script_model(m, p)
                }
            },
            _ => (m, OutcomeModel::Ignored),
        },
        Phase::RunningInstaller => match e {
            EventModel::ScriptMissing => fail_model(
                m,
                Stage::RunInstaller,
                InstallError::MissingInstallScript,
            ),
            EventModel::FsFailed => fail_model(
                m,
                Stage::RunInstaller,
                InstallError::FilesystemError,
            ),
            EventModel::ScriptExited { code } => {
                if code != 0 {
                    fail_model(m, Stage::RunInstaller, InstallError::InstallScriptFailed(code))
                } else {
                    (
                        InstallerModel { phase: Phase::DeletingScript, ..m },
                        OutcomeModel::Next(
                            ActionModel::DeleteScript {
                                path: script_path_model(m.install_dir),
                            },
                        ),
                    )
                }
            },
            _ => (m, OutcomeModel::Ignored),
        },
        Phase::DeletingScript => match (e, m.pkg) {
            (EventModel::FsFailed, _) => fail_model(
                m,
                Stage::RunInstaller,
                InstallError::FilesystemError,
            ),
            (EventModel::ScriptDeleted, Option::Some(p)) => after_script_model(m, p),
            _ => (m, OutcomeModel::Ignored),
        },
        Phase::Linking => match e {
            EventModel::LinkFailed => fail_model(
                m,
                Stage::LinkExecutable,
                InstallError::LinkCreationFailed,
            ),
            EventModel::LinkCreated => registry_step_model(m),
            _ => (m, OutcomeModel::Ignored),
        },
        Phase::ReadingRegistry => match (e, m.pkg) {
            (EventModel::FsFailed, _) => fail_model(
                m,
                Stage::UpdateRegistry,
                InstallError::FilesystemError,
            ),
            (EventModel::RegistryUnreadable, _) => fail_model(
                m,
                Stage::UpdateRegistry,
                InstallError::RegistryCorrupt,
            ),
            (EventModel::RegistryMissing, Option::Some(p)) => registry_write_model(
                m,
                p,
                Option::None,
            ),
            (EventModel::RegistryContent { content }, Option::Some(p)) => registry_write_model(
                m,
                p,
                Option::Some(content),
            ),
            _ => (m, OutcomeModel::Ignored),
        },
        Phase::WritingRegistry => match e {
            EventModel::FsFailed => fail_model(
                m,
                Stage::UpdateRegistry,
                InstallError::FilesystemError,
            ),
            EventModel::RegistryWritten => (
                InstallerModel { phase: Phase::Done, ..m },
                OutcomeModel::Done,
            ),
            _ => (m, OutcomeModel::Ignored),
        },
        Phase::Done => (m, OutcomeModel::Ignored),
        Phase::Failed => (m, OutcomeModel::Ignored),
    }
}

/// The machine a fresh install starts from, and its first action.
pub open spec fn init_model(
    server_url: Seq<char>,
    package_dir: Seq<char>,
    bin_dir: Seq<char>,
    registry_file: Seq<char>,
    name: Seq<char>,
) -> (InstallerModel, ActionModel) {
    (
        InstallerModel {
            server_url,
            package_dir,
            bin_dir,
            registry_file,
            pkg_name: name,
            install_dir: package_dir + "/"@ + name,
            phase: Phase::FetchingMetadata,
            pkg: Option::None,
            declared_crc: 0,
            stream_crc: 0,
            failure: Option::None,
        },
        ActionModel::FetchMetadata { url: metadata_url_model(server_url, name) },
    )
}

// ---------------------------------------------------------------------------
// The executable machine
// ---------------------------------------------------------------------------

impl Installer {
    /// Starts one install: the fresh machine and its first action, the
    /// metadata request. The configuration is passed in explicitly; the
    /// machine does no lookups of its own.
    pub fn new(config: &DcspkgConfig, package: &str) -> (r: (Installer, Action))
        ensures
            r.0@ == init_model(
                config.server.url@,
                config.registry.install_dir@,
                config.registry.bin_dir@,
                config.registry.registry_file@,
                package@,
            ).0,
            r.1@ == init_model(
                config.server.url@,
                config.registry.install_dir@,
                config.registry.bin_dir@,
                config.registry.registry_file@,
                package@,
            ).1,
    {
        let mut install_dir = config.registry.install_dir.clone();
        install_dir.append("/");
        install_dir.append(package);
        let mut url = config.server.url.clone();
        url.append("/pkgdata/");
        url.append(package);
        let inst = Installer {
            server_url: config.server.url.clone(),
            package_dir: config.registry.install_dir.clone(),
            bin_dir: config.registry.bin_dir.clone(),
            registry_file: config.registry.registry_file.clone(),
            pkg_name: package.to_owned(),
            install_dir,
            phase: Phase::FetchingMetadata,
            pkg: Option::None,
            declared_crc: 0,
            stream_crc: 0,
            failure: Option::None,
        };
        (inst, Action::FetchMetadata { url })
    }

    /// Halts the machine at a stage failure.
    fn fail(&mut self, stage: Stage, cause: InstallError) -> (r: Outcome)
        ensures
            final(self)@ == fail_model(old(self)@, stage, cause).0,
            r@ == fail_model(old(self)@, stage, cause).1,
    {
        let e = StageError { stage, cause };
        self.phase = Phase::Failed;
        self.failure = Option::Some(e);
        Outcome::Fail(e)
    }

    /// Goes on to read the registry.
    fn to_registry(&mut self) -> (r: Outcome)
        ensures
            final(self)@ == registry_step_model(old(self)@).0,
            r@ == registry_step_model(old(self)@).1,
    {
        self.phase = Phase::ReadingRegistry;
        Outcome::Next(Action::ReadRegistry { path: self.registry_file.clone() })
    }

    /// After a verified extraction and a finished installer: links the
    /// executable when the descriptor asks for it, else goes on to the
    /// registry.
    fn advance_past_script(&mut self) -> (r: Outcome)
        requires
            old(self).pkg is Some,
        ensures
            match old(self)@.pkg {
                Option::Some(p) => final(self)@ == after_script_model(old(self)@, p).0 && r@
                    == after_script_model(old(self)@, p).1,
                Option::None => false,
            },
    {
        let (add_to_path, exe, name) = match &self.pkg {
            Option::Some(p) => (
                p.add_to_path,
                match &p.executable_path {
                    Option::Some(rel) => Option::Some(rel.clone()),
                    Option::None => Option::None,
                },
                p.name.clone(),
            ),
            Option::None => { return Outcome::Ignored; },
        };
        if add_to_path {
            match exe {
                Option::None => self.fail(
                    Stage::LinkExecutable,
                    InstallError::MissingExecutablePath,
                ),
                Option::Some(rel) => {
                    let mut link = self.bin_dir.clone();
                    link.append("/");
                    link.append(name.as_str());
                    let mut target = self.install_dir.clone();
                    target.append("/");
                    target.append(rel.as_str());
                    self.phase = Phase::Linking;
                    Outcome::Next(
                        Action::CreateLink { bin_dir: self.bin_dir.clone(), link, target },
                    )
                },
            }
        } else {
            self.to_registry()
        }
    }

    /// Appends the descriptor to what the registry file held and asks for
    /// the rewrite.
    fn registry_write(&mut self, content: Option<&str>) -> (r: Outcome)
        requires
            old(self).pkg is Some,
        ensures
            match old(self)@.pkg {
                Option::Some(p) => final(self)@ == registry_write_model(
                    old(self)@,
                    p,
                    crate::registry::opt_str_view(content),
                ).0 && r@ == registry_write_model(
                    old(self)@,
                    p,
                    crate::registry::opt_str_view(content),
                ).1,
                Option::None => false,
            },
    {
        let pkg_copy = match &self.pkg {
            Option::Some(p) => p.duplicate(),
            Option::None => { return Outcome::Ignored; },
        };
        match add_to_registry(content, &pkg_copy) {
            Result::Err(e) => self.fail(Stage::UpdateRegistry, e),
            Result::Ok(new_content) => {
                self.phase = Phase::WritingRegistry;
                Outcome::Next(
                    Action::WriteRegistry {
                        path: self.registry_file.clone(),
                        content: new_content,
                    },
                )
            },
        }
    }

    /// One step of the machine: takes the event reported for the pending
    /// action and yields the next action, completion, or the stage
    /// failure the install halted at. An event that does not answer the
    /// pending action is ignored.
    pub fn step(&mut self, event: Event) -> (r: Outcome)
        ensures
            final(self)@ == step_model(old(self)@, event@).0,
            r@ == step_model(old(self)@, event@).1,
    {
        proof {
            reveal(step_model);
        }
        match self.phase {
            Phase::FetchingMetadata => match event {
                Event::NetFailed => self.fail(Stage::FetchMetadata, InstallError::NetworkError),
                Event::MetadataResponse { status, body } => {
                    match crate::get_pkg_data(status, body.as_str()) {
                        Result::Err(cause) => self.fail(Stage::FetchMetadata, cause),
                        Result::Ok(p) => {
                            self.declared_crc = p.crc;
                            self.pkg = Option::Some(p);
                            self.phase = Phase::CreatingDirs;
                            Outcome::Next(Action::CreateDirs { path: self.package_dir.clone() })
                        },
                    }
                },
                _ => Outcome::Ignored,
            },
            Phase::CreatingDirs => match event {
                Event::FsFailed => self.fail(
                    Stage::CreateDirectories,
                    InstallError::FilesystemError,
                ),
                Event::DirsCreated => {
                    let locator = match &self.pkg {
                        Option::Some(p) => p.archive_path.clone(),
                        Option::None => { return Outcome::Ignored; },
                    };
                    let mut url = self.server_url.clone();
                    url.append("/download/");
                    url.append(locator.as_str());
                    self.phase = Phase::Downloading;
                    Outcome::Next(Action::FetchArchive { url })
                },
                _ => Outcome::Ignored,
            },
            Phase::Downloading => match event {
                Event::NetFailed => self.fail(
                    Stage::DownloadAndVerify,
                    InstallError::NetworkError,
                ),
                Event::ArchiveResponse { status, body } => {
                    if status != 200 {
                        self.fail(Stage::DownloadAndVerify, InstallError::ServerError(status))
                    } else {
                        match decode_archive(body.as_slice()) {
                            Option::None => self.fail(
                                Stage::DownloadAndVerify,
                                InstallError::ResponseParseError,
                            ),
                            Option::Some(files) => match check_entries(&files) {
                                Result::Err(e) => self.fail(Stage::DownloadAndVerify, e),
                                Result::Ok(()) => {
                                    self.stream_crc = archive_checksum(body.as_slice());
                                    self.phase = Phase::Extracting;
                                    Outcome::Next(
                                        Action::WriteFiles {
                                            dir: self.install_dir.clone(),
                                            files,
                                        },
                                    )
                                },
                            },
                        }
                    }
                },
                _ => Outcome::Ignored,
            },
            Phase::Extracting => match event {
                Event::FsFailed => self.fail(
                    Stage::DownloadAndVerify,
                    InstallError::FilesystemError,
                ),
                Event::FilesWritten => {
                    let has_installer = match &self.pkg {
                        Option::Some(p) => p.has_installer,
                        Option::None => { return Outcome::Ignored; },
                    };
                    if self.stream_crc != self.declared_crc {
                        self.fail(Stage::DownloadAndVerify, InstallError::ChecksumMismatch)
                    } else if has_installer {
                        self.phase = Phase::RunningInstaller;
                        Outcome::Next(Action::RunScript { dir: self.install_dir.clone() })
                    } else {
                        self.advance_past_script()
                    }
                },
                _ => Outcome::Ignored,
            },
            Phase::RunningInstaller => match event {
                Event::ScriptMissing => self.fail(
                    Stage::RunInstaller,
                    InstallError::MissingInstallScript,
                ),
                Event::FsFailed => self.fail(Stage::RunInstaller, InstallError::FilesystemError),
                Event::ScriptExited { code } => {
                    if code != 0 {
                        self.fail(Stage::RunInstaller, InstallError::InstallScriptFailed(code))
                    } else {
                        let mut path = self.install_dir.clone();
                        path.append("/install.sh");
                        self.phase = Phase::DeletingScript;
                        Outcome::Next(Action::DeleteScript { path })
                    }
                },
                _ => Outcome::Ignored,
            },
            Phase::DeletingScript => match event {
                Event::FsFailed => self.fail(Stage::RunInstaller, InstallError::FilesystemError),
                Event::ScriptDeleted => {
                    if self.pkg.is_some() {
                        self.advance_past_script()
                    } else {
                        Outcome::Ignored
                    }
                },
                _ => Outcome::Ignored,
            },
            Phase::Linking => match event {
                Event::LinkFailed => self.fail(
                    Stage::LinkExecutable,
                    InstallError::LinkCreationFailed,
                ),
                Event::LinkCreated => self.to_registry(),
                _ => Outcome::Ignored,
            },
            Phase::ReadingRegistry => match event {
                Event::FsFailed => self.fail(Stage::UpdateRegistry, InstallError::FilesystemError),
                Event::RegistryUnreadable => self.fail(
                    Stage::UpdateRegistry,
                    InstallError::RegistryCorrupt,
                ),
                Event::RegistryMissing => {
                    if self.pkg.is_some() {
                        self.registry_write(Option::None)
                    } else {
                        Outcome::Ignored
                    }
                },
                Event::RegistryContent { content } => {
                    if self.pkg.is_some() {
                        self.registry_write(Option::Some(content.as_str()))
                    } else {
                        Outcome::Ignored
                    }
                },
                _ => Outcome::Ignored,
            },
            Phase::WritingRegistry => match event {
                Event::FsFailed => self.fail(Stage::UpdateRegistry, InstallError::FilesystemError),
                Event::RegistryWritten => {
                    self.phase = Phase::Done;
                    Outcome::Done
                },
                _ => Outcome::Ignored,
            },
            Phase::Done => Outcome::Ignored,
            Phase::Failed => Outcome::Ignored,
        }
    }
}

// ---------------------------------------------------------------------------
// Running the machine over a sequence of events
// ---------------------------------------------------------------------------

/// Whether the machine has stopped, in success or failure.
pub open spec fn terminal_model(m: InstallerModel) -> bool {
    m.phase is Done || m.phase is Failed
}

/// What a stopped machine reports: success, the stage failure it halted
/// at, or nothing while it still waits for events.
pub open spec fn run_result(m: InstallerModel) -> Option<Result<(), StageError>> {
    if m.phase is Done {
        Option::Some(Result::Ok(()))
    } else if m.phase is Failed {
        match m.failure {
            Option::Some(e) => Option::Some(Result::Err(e)),
            Option::None => Option::None,
        }
    } else {
        Option::None
    }
}

/// The machine run over a sequence of events: the actions it asks for,
/// in order, and where it ends.
pub open spec fn run_model(m: InstallerModel, events: Seq<EventModel>) -> (
    Seq<ActionModel>,
    InstallerModel,
)
    decreases events.len(),
{
    if events.len() == 0 || terminal_model(m) {
        (Seq::empty(), m)
    } else {
        let (m2, out) = step_model(m, events[0]);
        let (acts, mf) = run_model(m2, events.drop_first());
        (
            match out {
                OutcomeModel::Next(a) => seq![a] + acts,
                _ => acts,
            },
            mf,
        )
    }
}

/// The views of a sequence of events.
pub open spec fn event_views(l: Seq<Event>) -> Seq<EventModel> {
    l.map_values(|e: Event| e@)
}

/// The views of a sequence of actions.
pub open spec fn action_views(l: Seq<Action>) -> Seq<ActionModel> {
    l.map_values(|a: Action| a@)
}

/// Installs one package, replaying a recorded sequence of events: the
/// whole orchestration as one call. The result lists every action the
/// machine asked for, in order, and reports success, the stage failure
/// the install halted at, or nothing when the events ran out mid-install.
#[verifier::loop_isolation(false)]
#[verifier::rlimit(100)]
pub fn install_package(config: &DcspkgConfig, package: &str, events: Vec<Event>) -> (r: (
    Vec<Action>,
    Option<Result<(), StageError>>,
))
    ensures
        ({
            let (m0, a0) = init_model(
                config.server.url@,
                config.registry.install_dir@,
                config.registry.bin_dir@,
                config.registry.registry_file@,
                package@,
            );
            let (acts, mf) = run_model(m0, event_views(events@));
            action_views(r.0@) == seq![a0] + acts && r.1 == run_result(mf)
        }),
{
    let (inst, a0) = Installer::new(config, package);
    let mut inst = inst;
    let ghost m0 = inst@;
    let ghost a0m = a0@;
    let ghost orig = event_views(events@);
    let mut events = events;
    let mut actions: Vec<Action> = Vec::new();
    actions.push(a0);
    proof {
        assert(action_views(actions@) =~= seq![a0m]);
    }
    while events.len() > 0
        invariant
            action_views(actions@) + run_model(inst@, event_views(events@)).0 == seq![a0m]
                + run_model(m0, orig).0,
            run_model(inst@, event_views(events@)).1 == run_model(m0, orig).1,
        decreases events@.len(),
    {
        let stopped = match inst.phase {
            Phase::Done => true,
            Phase::Failed => true,
            _ => false,
        };
        if stopped {
            proof {
                assert(terminal_model(inst@));
                assert(run_model(inst@, event_views(events@)).0 == Seq::<ActionModel>::empty());
                assert(action_views(actions@) + Seq::<ActionModel>::empty() =~= action_views(
                    actions@,
                ));
                assert(run_model(inst@, event_views(events@)).1 == inst@);
            }
            let result = inst.current_result();
            return (actions, result);
        }
        let ghost pre_events = events@;
        let ghost pre_inst = inst@;
        let ev = events.remove(0);
        proof {
            assert(pre_events.remove(0) =~= pre_events.drop_first());
            assert(event_views(pre_events)[0] == ev@);
            assert(event_views(pre_events).drop_first() =~= event_views(pre_events.drop_first()));
            assert(!terminal_model(pre_inst));
        }
        let out = inst.step(ev);
        proof {
            assert(event_views(pre_events).len() > 0);
        }
        match out {
            Outcome::Next(a) => {
                let ghost pre_actions = actions@;
                actions.push(a);
                proof {
                    assert(action_views(pre_actions.push(a)) =~= action_views(pre_actions).push(
                        a@,
                    ));
                    assert(step_model(pre_inst, ev@).1 == OutcomeModel::Next(a@));
                    assert(run_model(pre_inst, event_views(pre_events)).0 == seq![a@] + run_model(
                        inst@,
                        event_views(events@),
                    ).0);
                    assert(action_views(pre_actions).push(a@) + run_model(
                        inst@,
                        event_views(events@),
                    ).0 =~= action_views(pre_actions) + (seq![a@] + run_model(
                        inst@,
                        event_views(events@),
                    ).0));
                }
            },
            _ => {
                proof {
                    assert(run_model(pre_inst, event_views(pre_events)).0 == run_model(
                        inst@,
                        event_views(events@),
                    ).0);
                }
            },
        }
    }
    proof {
        assert(event_views(events@).len() == 0);
        assert(run_model(inst@, event_views(events@)).0 == Seq::<ActionModel>::empty());
        assert(action_views(actions@) + Seq::<ActionModel>::empty() =~= action_views(actions@));
        assert(run_model(inst@, event_views(events@)).1 == inst@);
    }
    let result = inst.current_result();
    (actions, result)
}

impl Installer {
    /// What the machine reports where it stands: success once done, the
    /// stage failure it halted at, or nothing while it still waits.
    pub fn current_result(&self) -> (r: Option<Result<(), StageError>>)
        ensures
            r == run_result(self@),
    {
        match self.phase {
            Phase::Done => Option::Some(Result::Ok(())),
            Phase::Failed => match self.failure {
                Option::Some(e) => Option::Some(Result::Err(e)),
                Option::None => Option::None,
            },
            _ => Option::None,
        }
    }
}

// ---------------------------------------------------------------------------
// Laws of the machine
// ---------------------------------------------------------------------------

/// A failure outcome records itself: whenever a step yields a stage
/// failure, the machine is stopped at `Failed` with exactly that failure.
#[verifier::rlimit(100)]
pub proof fn lemma_fail_outcome_recorded(m: InstallerModel, e: EventModel)
    requires
        step_model(m, e).1 matches OutcomeModel::Fail(err),
    ensures
        ({
            let (m2, out) = step_model(m, e);
            match out {
                OutcomeModel::Fail(err) => m2.phase is Failed && m2.failure == Option::Some(err)
                    && run_result(m2) == Option::Some(Result::<(), StageError>::Err(err)),
                _ => true,
            }
        }),
{
    reveal(step_model);
}

/// A stopped machine stays stopped: it asks for nothing more and keeps
/// reporting the failure it halted at, whatever events still arrive.
/// Nothing done before the failure is compensated.
pub proof fn lemma_stage_failure_halts(m: InstallerModel, rest: Seq<EventModel>)
    requires
        m.phase is Failed,
    ensures
        run_model(m, rest).0 == Seq::<ActionModel>::empty(),
        run_model(m, rest).1 == m,
{
}

/// An archive with an entry whose path would resolve outside the target
/// directory is rejected as `MaliciousArchive` at the download stage, and
/// the machine never asks for any file to be written.
pub proof fn lemma_malicious_archive_rejected(
    m: InstallerModel,
    body: Seq<u8>,
    es: Seq<(Seq<char>, bool, u32, Seq<u8>)>,
    rest: Seq<EventModel>,
)
    requires
        m.phase is Downloading,
        archive_entries_of(body) == Option::Some(es),
        !all_entries_safe(es),
    ensures
        ({
            let (m2, out) = step_model(m, EventModel::ArchiveResponse { status: 200, body });
            &&& out == OutcomeModel::Fail(
                StageError {
                    stage: Stage::DownloadAndVerify,
                    cause: InstallError::MaliciousArchive,
                },
            )
            &&& m2.phase is Failed
            &&& run_model(m2, rest).0 == Seq::<ActionModel>::empty()
        }),
{
    reveal(step_model);
}

/// Six steps, each a success, run to their end: the actions of the first
/// five, then the machine the sixth leaves behind.
#[verifier::rlimit(100)]
proof fn lemma_run_six(
    m0: InstallerModel,
    e0: EventModel,
    e1: EventModel,
    e2: EventModel,
    e3: EventModel,
    e4: EventModel,
    e5: EventModel,
    m1: InstallerModel,
    m2: InstallerModel,
    m3: InstallerModel,
    m4: InstallerModel,
    m5: InstallerModel,
    m6: InstallerModel,
    a1: ActionModel,
    a2: ActionModel,
    a3: ActionModel,
    a4: ActionModel,
    a5: ActionModel,
)
    requires
        !terminal_model(m0),
        !terminal_model(m1),
        !terminal_model(m2),
        !terminal_model(m3),
        !terminal_model(m4),
        !terminal_model(m5),
        step_model(m0, e0) == (m1, OutcomeModel::Next(a1)),
        step_model(m1, e1) == (m2, OutcomeModel::Next(a2)),
        step_model(m2, e2) == (m3, OutcomeModel::Next(a3)),
        step_model(m3, e3) == (m4, OutcomeModel::Next(a4)),
        step_model(m4, e4) == (m5, OutcomeModel::Next(a5)),
        step_model(m5, e5) == (m6, OutcomeModel::Done),
    ensures
        run_model(m0, seq![e0, e1, e2, e3, e4, e5]) == (seq![a1, a2, a3, a4, a5], m6),
{
    assert(seq![e0, e1, e2, e3, e4, e5].drop_first() =~= seq![e1, e2, e3, e4, e5]);
    assert(seq![e1, e2, e3, e4, e5].drop_first() =~= seq![e2, e3, e4, e5]);
    assert(seq![e2, e3, e4, e5].drop_first() =~= seq![e3, e4, e5]);
    assert(seq![e3, e4, e5].drop_first() =~= seq![e4, e5]);
    assert(seq![e4, e5].drop_first() =~= seq![e5]);
    assert(seq![e5].drop_first() =~= Seq::<EventModel>::empty());
    assert(run_model(m6, Seq::<EventModel>::empty()) == (Seq::<ActionModel>::empty(), m6));
    assert(run_model(m5, seq![e5]).1 == m6);
    assert(run_model(m5, seq![e5]).0 =~= Seq::<ActionModel>::empty());
    assert(run_model(m4, seq![e4, e5]).1 == m6);
    assert(run_model(m4, seq![e4, e5]).0 =~= seq![a5]);
    assert(run_model(m3, seq![e3, e4, e5]).1 == m6);
    assert(run_model(m3, seq![e3, e4, e5]).0 =~= seq![a4, a5]);
    assert(run_model(m2, seq![e2, e3, e4, e5]).1 == m6);
    assert(run_model(m2, seq![e2, e3, e4, e5]).0 =~= seq![a3, a4, a5]);
    assert(run_model(m1, seq![e1, e2, e3, e4, e5]).1 == m6);
    assert(run_model(m1, seq![e1, e2, e3, e4, e5]).0 =~= seq![a2, a3, a4, a5]);
    assert(run_model(m0, seq![e0, e1, e2, e3, e4, e5]).1 == m6);
    assert(run_model(m0, seq![e0, e1, e2, e3, e4, e5]).0 =~= seq![a1, a2, a3, a4, a5]);
}

/// For a descriptor with no installer and no path link, an install that
/// receives a success event at every stage runs the stages in their fixed
/// order — metadata, directories, download and verification, registry
/// read, registry rewrite — asks for exactly those actions, succeeds, and
/// asks the registry to hold exactly one more entry, the descriptor
/// itself, in a form a later read returns unchanged.
#[verifier::rlimit(100)]
pub proof fn lemma_plain_install_success(
    server: Seq<char>,
    package_dir: Seq<char>,
    bin_dir: Seq<char>,
    registry_file: Seq<char>,
    name: Seq<char>,
    meta_body: Seq<char>,
    archive_body: Seq<u8>,
    reg_content: Option<Seq<char>>,
    p: PackageModel,
    es: Seq<(Seq<char>, bool, u32, Seq<u8>)>,
    l: Seq<PackageModel>,
)
    requires
        crate::json::parse_package_complete(meta_body) == Option::Some(p),
        !p.has_installer,
        !p.add_to_path,
        crc32_of(archive_body) == p.crc,
        archive_entries_of(archive_body) == Option::Some(es),
        all_entries_safe(es),
        registry_parse(reg_content) == Option::Some(l),
    ensures
        ({
            let (m0, a0) = init_model(server, package_dir, bin_dir, registry_file, name);
            let reg_event = match reg_content {
                Option::Some(c) => EventModel::RegistryContent { content: c },
                Option::None => EventModel::RegistryMissing,
            };
            let events = seq![
                EventModel::MetadataResponse { status: 200, body: meta_body },
                EventModel::DirsCreated,
                EventModel::ArchiveResponse { status: 200, body: archive_body },
                EventModel::FilesWritten,
                reg_event,
                EventModel::RegistryWritten,
            ];
            let (acts, mf) = run_model(m0, events);
            &&& run_result(mf) == Option::Some(Result::<(), StageError>::Ok(()))
            &&& acts == seq![
                ActionModel::CreateDirs { path: package_dir },
                ActionModel::FetchArchive { url: archive_url_model(server, p.archive_path) },
                ActionModel::WriteFiles { dir: package_dir + "/"@ + name, files: es },
                ActionModel::ReadRegistry { path: registry_file },
                ActionModel::WriteRegistry {
                    path: registry_file,
                    content: json_package_list(l.push(p)),
                },
            ]
            &&& crate::json::parse_package_list(json_package_list(l.push(p)))
                == Option::Some(l.push(p))
            &&& l.push(p).len() == l.len() + 1
            &&& l.push(p)[l.len() as int] == p
        }),
{
    let (m0, a0) = init_model(server, package_dir, bin_dir, registry_file, name);
    let reg_event = match reg_content {
        Option::Some(c) => EventModel::RegistryContent { content: c },
        Option::None => EventModel::RegistryMissing,
    };
    let e0 = EventModel::MetadataResponse { status: 200, body: meta_body };
    let e1 = EventModel::DirsCreated;
    let e2 = EventModel::ArchiveResponse { status: 200, body: archive_body };
    let e3 = EventModel::FilesWritten;
    let e5 = EventModel::RegistryWritten;
    let events = seq![e0, e1, e2, e3, reg_event, e5];

    reveal(step_model);
    let (m1, o1) = step_model(m0, e0);
    assert(metadata_model(200, meta_body) == Result::<PackageModel, InstallError>::Ok(p));
    assert(m1.phase == Phase::CreatingDirs && m1.pkg == Option::Some(p) && m1.declared_crc
        == p.crc);
    assert(o1 == OutcomeModel::Next(ActionModel::CreateDirs { path: package_dir }));

    let (m2, o2) = step_model(m1, e1);
    assert(m2.phase == Phase::Downloading);
    assert(o2 == OutcomeModel::Next(
        ActionModel::FetchArchive { url: archive_url_model(server, p.archive_path) },
    ));

    let (m3, o3) = step_model(m2, e2);
    assert(m3.phase == Phase::Extracting && m3.stream_crc == crc32_of(archive_body));
    assert(o3 == OutcomeModel::Next(
        ActionModel::WriteFiles { dir: package_dir + "/"@ + name, files: es },
    ));

    let (m4, o4) = step_model(m3, e3);
    assert(m4.phase == Phase::ReadingRegistry);
    assert(o4 == OutcomeModel::Next(ActionModel::ReadRegistry { path: registry_file }));

    let (m5, o5) = step_model(m4, reg_event);
    assert(m5.phase == Phase::WritingRegistry);
    assert(o5 == OutcomeModel::Next(
        ActionModel::WriteRegistry {
            path: registry_file,
            content: json_package_list(l.push(p)),
        },
    ));

    let (m6, o6) = step_model(m5, e5);
    assert(m6.phase == Phase::Done);
    assert(o6 == OutcomeModel::Done);

    let a1 = ActionModel::CreateDirs { path: package_dir };
    let a2 = ActionModel::FetchArchive { url: archive_url_model(server, p.archive_path) };
    let a3 = ActionModel::WriteFiles { dir: package_dir + "/"@ + name, files: es };
    let a4 = ActionModel::ReadRegistry { path: registry_file };
    let a5 = ActionModel::WriteRegistry {
        path: registry_file,
        content: json_package_list(l.push(p)),
    };
    lemma_run_six(
        m0, e0, e1, e2, e3, reg_event, e5, m1, m2, m3, m4, m5, m6, a1, a2, a3, a4, a5,
    );

    crate::json::lemma_package_list_roundtrip(l.push(p));
}

/// The install script is deleted only on success: the machine asks for
/// the deletion exactly after the script has exited with code zero. A
/// failed script stays on disk.
#[verifier::rlimit(100)]
pub proof fn lemma_script_deleted_only_on_success(m: InstallerModel, e: EventModel)
    ensures
        ({
            let (m2, out) = step_model(m, e);
            (out matches OutcomeModel::Next(a) && a matches ActionModel::DeleteScript { .. })
                ==> m.phase is RunningInstaller && e == (EventModel::ScriptExited { code: 0 })
        }),
{
    reveal(step_model);
}

/// The position of a phase in the fixed stage order.
pub open spec fn phase_index(p: Phase) -> int {
    match p {
        Phase::FetchingMetadata => 0,
        Phase::CreatingDirs => 1,
        Phase::Downloading => 2,
        Phase::Extracting => 3,
        Phase::RunningInstaller => 4,
        Phase::DeletingScript => 5,
        Phase::Linking => 6,
        Phase::ReadingRegistry => 7,
        Phase::WritingRegistry => 8,
        Phase::Done => 9,
        Phase::Failed => 10,
    }
}

/// The stages are strictly sequential: no step ever moves the machine
/// backwards.
#[verifier::rlimit(100)]
pub proof fn lemma_no_backward_transitions(m: InstallerModel, e: EventModel)
    ensures
        phase_index(step_model(m, e).0.phase) >= phase_index(m.phase),
{
    reveal(step_model);
}

/// The checksum is compared only once the stream has been consumed in
/// full, which extraction forces: a mismatch is detected after the files
/// may already be on disk, halts the install there, and leaves them as
/// they are — no rollback.
pub proof fn lemma_checksum_checked_after_extraction(m: InstallerModel, rest: Seq<EventModel>)
    requires
        m.phase is Extracting,
        m.pkg is Some,
        m.stream_crc != m.declared_crc,
    ensures
        ({
            let (m2, out) = step_model(m, EventModel::FilesWritten);
            &&& out == OutcomeModel::Fail(
                StageError {
                    stage: Stage::DownloadAndVerify,
                    cause: InstallError::ChecksumMismatch,
                },
            )
            &&& m2.phase is Failed
            &&& run_model(m2, rest).0 == Seq::<ActionModel>::empty()
        }),
{
    reveal(step_model);
}

} // verus!
