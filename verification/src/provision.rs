//! The binary provisioning state machine.
//!
//! A [`Provisioner`] decides, one step at a time, how the host is to
//! locate, download, cache and hand back the path of the `conl-lsp`
//! executable. The host performs each commanded [`HostCall`] (it alone
//! does I/O), feeds the outcome back as an [`Event`], and follows the
//! resulting [`Transition`]: report the announced installation status, if
//! any, then either perform the next call, or end the attempt with a path
//! or an error.
//!
//! The whole transition relation is the spec function [`step_spec`];
//! [`Provisioner::step`] is proved to realise it exactly.

use vstd::prelude::*;
use vstd::string::StringExecFns;
use crate::error::ProvisionError;
use crate::platform::{Arch, Os, asset_name, expected_asset_name, platform_supported};

verus! {

/// One downloadable artifact of a release: its name and its URL.
#[derive(Debug, PartialEq, Eq)]
pub struct AssetDescriptor {
    pub name: String,
    pub download_url: String,
}

/// The latest release of the project: a version identifier, used verbatim
/// as the cache-directory discriminator, and its assets in service order.
#[derive(Debug, PartialEq, Eq)]
pub struct ReleaseDescriptor {
    pub version: String,
    pub assets: Vec<AssetDescriptor>,
}

/// An installation status the host is to report to its user interface.
/// `Idle` is the quiescent status (no installation activity).
#[derive(Debug, PartialEq, Eq)]
pub enum InstallationStatus {
    CheckingForUpdate,
    Downloading,
    Idle,
    Failed(String),
}

/// A blocking call the host is to perform on the machine's behalf, feeding
/// the outcome back as the matching [`Event`].
#[derive(Debug, PartialEq, Eq)]
pub enum HostCall {
    /// Query the release service for the latest release of `repository`
    /// that has at least one asset (`require_assets`) and is not a
    /// pre-release (`pre_release` false).
    FetchLatestRelease { repository: String, require_assets: bool, pre_release: bool },
    /// Ask the runtime for the current (OS, architecture) pair.
    QueryPlatform,
    /// Create the directory and any missing parents; succeed if it exists.
    CreateDirAll { path: String },
    /// Report whether a regular file exists at the path.
    ProbeRegularFile { path: String },
    /// Fetch the URL to the destination path, as an uncompressed file.
    DownloadFile { url: String, destination: String },
    /// Mark the file at the path executable.
    MakeFileExecutable { path: String },
}

/// What the host feeds back: the request to begin, or the outcome of the
/// host call it was last commanded to perform.
#[derive(Debug, PartialEq, Eq)]
pub enum Event {
    /// The host wants the executable's path.
    Begin,
    ReleaseFetched { result: Result<ReleaseDescriptor, String> },
    PlatformDetected { os: Os, arch: Arch },
    DirCreated { result: Result<(), String> },
    FileProbed { present: bool },
    Downloaded { result: Result<(), String> },
    ExecutableMarked { result: Result<(), String> },
}

/// How the attempt proceeds after a step.
#[derive(Debug, PartialEq, Eq)]
pub enum Action {
    /// Perform this call and feed its outcome back as the next event.
    Perform { call: HostCall },
    /// The attempt succeeded: the executable is at this path.
    Resolved { path: String },
    /// The attempt failed; a later `Begin` starts over.
    Failed { error: ProvisionError },
}

/// The machine's answer to one event: a status to announce first, if any,
/// then the action to take.
#[derive(Debug, PartialEq, Eq)]
pub struct Transition {
    pub announce: Option<InstallationStatus>,
    pub action: Action,
}

/// Where the machine stands inside an attempt: which host call it is
/// waiting on, with the values the rest of the attempt needs.
#[derive(Debug, PartialEq, Eq)]
pub enum Phase {
    /// No attempt under way; `Begin` is awaited.
    Idle,
    AwaitingRelease,
    AwaitingPlatform { release: ReleaseDescriptor },
    AwaitingDirCreate { binary_path: String, download_url: String },
    AwaitingCacheProbe { binary_path: String, download_url: String },
    AwaitingDownload { binary_path: String },
    AwaitingMarkExecutable { binary_path: String },
    AwaitingVerifyProbe { binary_path: String },
}

/// The provisioning state machine: the path resolved earlier in this
/// process, if any, and the phase of the attempt under way.
pub struct Provisioner {
    pub cached_binary_path: Option<String>,
    pub phase: Phase,
}

/// The version-scoped cache directory: `conl-lsp-<version>`.
pub open spec fn version_directory_of(version: Seq<char>) -> Seq<char> {
    "conl-lsp-"@ + version
}

/// The path of the cached executable: `conl-lsp-<version>/<asset-name>`.
pub open spec fn binary_path_of(version: Seq<char>, asset: Seq<char>) -> Seq<char> {
    version_directory_of(version) + "/"@ + asset
}

/// Asset `i` of the release bears exactly the expected name.
pub open spec fn asset_matches(assets: Seq<AssetDescriptor>, name: Seq<char>, i: int) -> bool {
    0 <= i < assets.len() && assets[i].name@ == name
}

/// Some asset of the release bears the expected name.
pub open spec fn has_asset(assets: Seq<AssetDescriptor>, name: Seq<char>) -> bool {
    exists|i: int| asset_matches(assets, name, i)
}

/// Asset `i` is the first bearing the expected name.
pub open spec fn is_first_match(assets: Seq<AssetDescriptor>, name: Seq<char>, i: int) -> bool {
    &&& asset_matches(assets, name, i)
    &&& forall|j: int| 0 <= j < i ==> assets[j].name@ != name
}

/// Which events the machine accepts in each phase. The host, having
/// performed the commanded call, always answers with the matching event.
pub open spec fn admits(phase: Phase, event: Event) -> bool {
    match (phase, event) {
        (Phase::Idle, Event::Begin) => true,
        (Phase::AwaitingRelease, Event::ReleaseFetched { .. }) => true,
        (Phase::AwaitingPlatform { .. }, Event::PlatformDetected { .. }) => true,
        (Phase::AwaitingDirCreate { .. }, Event::DirCreated { .. }) => true,
        (Phase::AwaitingCacheProbe { .. }, Event::FileProbed { .. }) => true,
        (Phase::AwaitingDownload { .. }, Event::Downloaded { .. }) => true,
        (Phase::AwaitingMarkExecutable { .. }, Event::ExecutableMarked { .. }) => true,
        (Phase::AwaitingVerifyProbe { .. }, Event::FileProbed { .. }) => true,
        _ => false,
    }
}

/// The full transition relation of the machine: what one step does to the
/// state and what it answers, for every admissible (phase, event) pair.
pub open spec fn step_spec(pre: Provisioner, event: Event, post: Provisioner, t: Transition) -> bool {
    match (pre.phase, event) {
        (Phase::Idle, Event::Begin) => {
            match pre.cached_binary_path {
                Some(cached) => {
                    // Memory-cache hit: answer at once, no announcement,
                    // no host call of any kind.
                    &&& t.announce is None
                    &&& t.action matches Action::Resolved { path } && path == cached
                    &&& post == pre
                },
                None => {
                    // Cold start: announce the check, query the release
                    // service for the latest qualifying release.
                    &&& t.announce == Some(InstallationStatus::CheckingForUpdate)
                    &&& t.action matches Action::Perform {
                        call: HostCall::FetchLatestRelease { repository, require_assets, pre_release },
                    } && repository@ == "ConradIrwin/conl-lsp"@ && require_assets && !pre_release
                    &&& post.cached_binary_path is None
                    &&& post.phase is AwaitingRelease
                },
            }
        },
        (Phase::AwaitingRelease, Event::ReleaseFetched { result }) => {
            match result {
                Err(m) => {
                    &&& t.announce is None
                    &&& t.action matches Action::Failed {
                        error: ProvisionError::ReleaseDiscovery { message },
                    } && message == m
                    &&& post.cached_binary_path == pre.cached_binary_path
                    &&& post.phase is Idle
                },
                Ok(release) => {
                    &&& t.announce is None
                    &&& t.action matches Action::Perform { call: HostCall::QueryPlatform }
                    &&& post.cached_binary_path == pre.cached_binary_path
                    &&& post.phase matches Phase::AwaitingPlatform { release: held } && held
                        == release
                },
            }
        },
        (Phase::AwaitingPlatform { release }, Event::PlatformDetected { os, arch }) => {
            if !platform_supported(os, arch) {
                &&& t.announce is None
                &&& t.action matches Action::Failed {
                    error: ProvisionError::UnsupportedPlatform { os: o, arch: a },
                } && o == os && a == arch
                &&& post.cached_binary_path == pre.cached_binary_path
                &&& post.phase is Idle
            } else if !has_asset(release.assets@, expected_asset_name(os, arch)) {
                // Supported platform, but the release omitted the artifact:
                // an error distinct from the unsupported-platform one.
                &&& t.announce is None
                &&& t.action matches Action::Failed {
                    error: ProvisionError::AssetNotFound { asset_name: n },
                } && n@ == expected_asset_name(os, arch)
                &&& post.cached_binary_path == pre.cached_binary_path
                &&& post.phase is Idle
            } else {
                &&& t.announce is None
                &&& t.action matches Action::Perform { call: HostCall::CreateDirAll { path } }
                    && path@ == version_directory_of(release.version@)
                &&& post.cached_binary_path == pre.cached_binary_path
                &&& post.phase matches Phase::AwaitingDirCreate { binary_path, download_url } && {
                    &&& binary_path@ == binary_path_of(
                        release.version@,
                        expected_asset_name(os, arch),
                    )
                    &&& exists|i: int|
                        is_first_match(release.assets@, expected_asset_name(os, arch), i)
                            && download_url@ == release.assets@[i].download_url@
                }
            }
        },
        (Phase::AwaitingDirCreate { binary_path, download_url }, Event::DirCreated { result }) => {
            match result {
                Err(m) => {
                    &&& t.announce is None
                    &&& t.action matches Action::Failed {
                        error: ProvisionError::DirectoryCreation { message },
                    } && message == m
                    &&& post.cached_binary_path == pre.cached_binary_path
                    &&& post.phase is Idle
                },
                Ok(unit) => {
                    &&& t.announce is None
                    &&& t.action matches Action::Perform { call: HostCall::ProbeRegularFile { path } }
                        && path == binary_path
                    &&& post.cached_binary_path == pre.cached_binary_path
                    &&& post.phase matches Phase::AwaitingCacheProbe {
                        binary_path: bp,
                        download_url: url,
                    } && bp == binary_path && url == download_url
                },
            }
        },
        (Phase::AwaitingCacheProbe { binary_path, download_url }, Event::FileProbed { present }) => {
            if present {
                // Durable-cache hit: no download, the path is the answer
                // and is recorded for the rest of the process.
                &&& t.announce is None
                &&& t.action matches Action::Resolved { path } && path == binary_path
                &&& post.cached_binary_path matches Some(p) && p == binary_path
                &&& post.phase is Idle
            } else {
                &&& t.announce == Some(InstallationStatus::Downloading)
                &&& t.action matches Action::Perform {
                    call: HostCall::DownloadFile { url, destination },
                } && url == download_url && destination == binary_path
                &&& post.cached_binary_path == pre.cached_binary_path
                &&& post.phase matches Phase::AwaitingDownload { binary_path: bp } && bp
                    == binary_path
            }
        },
        (Phase::AwaitingDownload { binary_path }, Event::Downloaded { result }) => {
            match result {
                Err(m) => {
                    // A transport failure aborts the attempt with no further
                    // announcement: the last status the host reported stays
                    // `Downloading`. Only the post-download verification
                    // failure below announces `Failed`.
                    &&& t.announce is None
                    &&& t.action matches Action::Failed {
                        error: ProvisionError::DownloadTransport { message },
                    } && message == m
                    &&& post.cached_binary_path == pre.cached_binary_path
                    &&& post.phase is Idle
                },
                Ok(unit) => {
                    &&& t.announce is None
                    &&& t.action matches Action::Perform {
                        call: HostCall::MakeFileExecutable { path },
                    } && path == binary_path
                    &&& post.cached_binary_path == pre.cached_binary_path
                    &&& post.phase matches Phase::AwaitingMarkExecutable { binary_path: bp } && bp
                        == binary_path
                },
            }
        },
        (Phase::AwaitingMarkExecutable { binary_path }, Event::ExecutableMarked { result }) => {
            match result {
                Err(m) => {
                    &&& t.announce is None
                    &&& t.action matches Action::Failed {
                        error: ProvisionError::MarkExecutable { message },
                    } && message == m
                    &&& post.cached_binary_path == pre.cached_binary_path
                    &&& post.phase is Idle
                },
                Ok(unit) => {
                    &&& t.announce is None
                    &&& t.action matches Action::Perform { call: HostCall::ProbeRegularFile { path } }
                        && path == binary_path
                    &&& post.cached_binary_path == pre.cached_binary_path
                    &&& post.phase matches Phase::AwaitingVerifyProbe { binary_path: bp } && bp
                        == binary_path
                },
            }
        },
        (Phase::AwaitingVerifyProbe { binary_path }, Event::FileProbed { present }) => {
            if present {
                &&& t.announce == Some(InstallationStatus::Idle)
                &&& t.action matches Action::Resolved { path } && path == binary_path
                &&& post.cached_binary_path matches Some(p) && p == binary_path
                &&& post.phase is Idle
            } else {
                // The download reported success yet no regular file is
                // there: announce the failure and abort, leaving the
                // memory cache unpopulated.
                &&& t.announce matches Some(InstallationStatus::Failed(m)) && m@
                    == "Failed to download language server"@
                &&& t.action matches Action::Failed { error } && error
                    == ProvisionError::DownloadVerification
                &&& post.cached_binary_path == pre.cached_binary_path
                &&& post.phase is Idle
            }
        },
        _ => false,
    }
}

/// A ready-to-spawn command for the host: the resolved executable, with no
/// arguments and an empty environment.
#[derive(Debug, PartialEq, Eq)]
pub struct LaunchCommand {
    pub executable_path: String,
    pub args: Vec<String>,
    pub env: Vec<(String, String)>,
}

/// The command descriptor the host spawns once a path has resolved: that
/// path itself, an empty argument list, an empty environment mapping.
pub fn launch_command(executable_path: String) -> (c: LaunchCommand)
    ensures
        c.executable_path == executable_path,
        c.args@ == Seq::<String>::empty(),
        c.env@ == Seq::<(String, String)>::empty(),
{
    LaunchCommand { executable_path, args: Vec::new(), env: Vec::new() }
}

/// The index of the first asset bearing `name`, or `None` if no asset does.
pub fn find_asset(assets: &Vec<AssetDescriptor>, name: &String) -> (r: Option<usize>)
    ensures
        match r {
            Some(i) => is_first_match(assets@, name@, i as int),
            None => !has_asset(assets@, name@),
        },
{
    let mut i: usize = 0;
    while i < assets.len()
        invariant
            i <= assets.len(),
            forall|j: int| 0 <= j < i ==> assets@[j].name@ != name@,
        decreases assets.len() - i,
    {
        if assets[i].name == *name {
            return Some(i);
        }
        i += 1;
    }
    None
}

impl Provisioner {
    /// A fresh machine: nothing resolved yet, no attempt under way.
    pub fn new() -> (p: Provisioner)
        ensures
            p.cached_binary_path is None,
            p.phase is Idle,
    {
        Provisioner { cached_binary_path: None, phase: Phase::Idle }
    }

    /// Advance the machine by one event. The machine must be awaiting an
    /// event of this kind; the answer and the new state are exactly what
    /// [`step_spec`] prescribes.
    pub fn step(&mut self, event: Event) -> (t: Transition)
        requires
            admits(old(self).phase, event),
        ensures
            step_spec(*old(self), event, *final(self), t),
    {
        let mut phase = Phase::Idle;
        core::mem::swap(&mut phase, &mut self.phase);
        match (phase, event) {
            (Phase::Idle, Event::Begin) => {
                match &self.cached_binary_path {
                    Some(path) => Transition {
                        announce: None,
                        action: Action::Resolved { path: path.clone() },
                    },
                    None => {
                        self.phase = Phase::AwaitingRelease;
                        Transition {
                            announce: Some(InstallationStatus::CheckingForUpdate),
                            action: Action::Perform {
                                call: HostCall::FetchLatestRelease {
                                    repository: String::from_str("ConradIrwin/conl-lsp"),
                                    require_assets: true,
                                    pre_release: false,
                                },
                            },
                        }
                    },
                }
            },
            (Phase::AwaitingRelease, Event::ReleaseFetched { result }) => {
                match result {
                    Err(message) => Transition {
                        announce: None,
                        action: Action::Failed {
                            error: ProvisionError::ReleaseDiscovery { message },
                        },
                    },
                    Ok(release) => {
                        self.phase = Phase::AwaitingPlatform { release };
                        Transition {
                            announce: None,
                            action: Action::Perform { call: HostCall::QueryPlatform },
                        }
                    },
                }
            },
            (Phase::AwaitingPlatform { release }, Event::PlatformDetected { os, arch }) => {
                match asset_name(os, arch) {
                    Err(_) => Transition {
                        announce: None,
                        action: Action::Failed {
                            error: ProvisionError::UnsupportedPlatform { os, arch },
                        },
                    },
                    Ok(expected) => {
                        let wanted = String::from_str(expected);
                        match find_asset(&release.assets, &wanted) {
                            None => {
                                Transition {
                                    announce: None,
                                    action: Action::Failed {
                                        error: ProvisionError::AssetNotFound { asset_name: wanted },
                                    },
                                }
                            },
                            Some(i) => {
                                let download_url = release.assets[i].download_url.clone();
                                let version_dir = String::from_str("conl-lsp-").concat(
                                    release.version.as_str(),
                                );
                                let binary_path = version_dir.clone().concat("/").concat(
                                    wanted.as_str(),
                                );
                                self.phase = Phase::AwaitingDirCreate {
                                    binary_path,
                                    download_url,
                                };
                                Transition {
                                    announce: None,
                                    action: Action::Perform {
                                        call: HostCall::CreateDirAll { path: version_dir },
                                    },
                                }
                            },
                        }
                    },
                }
            },
            (
                Phase::AwaitingDirCreate { binary_path, download_url },
                Event::DirCreated { result },
            ) => {
                match result {
                    Err(message) => Transition {
                        announce: None,
                        action: Action::Failed {
                            error: ProvisionError::DirectoryCreation { message },
                        },
                    },
                    Ok(_) => {
                        let probe = binary_path.clone();
                        self.phase = Phase::AwaitingCacheProbe { binary_path, download_url };
                        Transition {
                            announce: None,
                            action: Action::Perform {
                                call: HostCall::ProbeRegularFile { path: probe },
                            },
                        }
                    },
                }
            },
            (
                Phase::AwaitingCacheProbe { binary_path, download_url },
                Event::FileProbed { present },
            ) => {
                if present {
                    self.cached_binary_path = Some(binary_path.clone());
                    Transition { announce: None, action: Action::Resolved { path: binary_path } }
                } else {
                    let destination = binary_path.clone();
                    self.phase = Phase::AwaitingDownload { binary_path };
                    Transition {
                        announce: Some(InstallationStatus::Downloading),
                        action: Action::Perform {
                            call: HostCall::DownloadFile { url: download_url, destination },
                        },
                    }
                }
            },
            (Phase::AwaitingDownload { binary_path }, Event::Downloaded { result }) => {
                match result {
                    Err(message) => Transition {
                        announce: None,
                        action: Action::Failed {
                            error: ProvisionError::DownloadTransport { message },
                        },
                    },
                    Ok(_) => {
                        let target = binary_path.clone();
                        self.phase = Phase::AwaitingMarkExecutable { binary_path };
                        Transition {
                            announce: None,
                            action: Action::Perform {
                                call: HostCall::MakeFileExecutable { path: target },
                            },
                        }
                    },
                }
            },
            (Phase::AwaitingMarkExecutable { binary_path }, Event::ExecutableMarked { result }) => {
                match result {
                    Err(message) => Transition {
                        announce: None,
                        action: Action::Failed {
                            error: ProvisionError::MarkExecutable { message },
                        },
                    },
                    Ok(_) => {
                        let probe = binary_path.clone();
                        self.phase = Phase::AwaitingVerifyProbe { binary_path };
                        Transition {
                            announce: None,
                            action: Action::Perform {
                                call: HostCall::ProbeRegularFile { path: probe },
                            },
                        }
                    },
                }
            },
            (Phase::AwaitingVerifyProbe { binary_path }, Event::FileProbed { present }) => {
                if present {
                    self.cached_binary_path = Some(binary_path.clone());
                    Transition {
                        announce: Some(InstallationStatus::Idle),
                        action: Action::Resolved { path: binary_path },
                    }
                } else {
                    Transition {
                        announce: Some(
                            InstallationStatus::Failed(
                                String::from_str("Failed to download language server"),
                            ),
                        ),
                        action: Action::Failed { error: ProvisionError::DownloadVerification },
                    }
                }
            },
            // Every other pairing is ruled out by `admits`.
            _ => unreached(),
        }
    }
}

} // verus!
