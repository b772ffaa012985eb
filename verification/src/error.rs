//! The ways a provisioning attempt can fail, and the message each failure
//! carries to the host.
//!
//! Every failure aborts the whole attempt; there is no retry or partial
//! result. The host receives a single string, produced by
//! [`ProvisionError::message`].

use vstd::prelude::*;
use vstd::string::StringExecFns;
use crate::platform::{Arch, Os};

verus! {

/// A failed provisioning attempt, by cause.
#[derive(Debug, PartialEq, Eq)]
pub enum ProvisionError {
    /// The (OS, architecture) pair has no asset-naming rule at all.
    UnsupportedPlatform { os: Os, arch: Arch },
    /// The release service could not supply a qualifying latest release.
    ReleaseDiscovery { message: String },
    /// The platform is supported, but the release lacks the expected asset.
    AssetNotFound { asset_name: String },
    /// The version-scoped cache directory could not be created.
    DirectoryCreation { message: String },
    /// The transport failed while fetching the asset.
    DownloadTransport { message: String },
    /// The downloaded file could not be marked executable.
    MarkExecutable { message: String },
    /// The download reported success, yet no regular file is at the path.
    DownloadVerification,
}

/// The label under which an operating system appears in a failure message.
pub open spec fn os_label(os: Os) -> Seq<char> {
    match os {
        Os::Mac => "Mac"@,
        Os::Linux => "Linux"@,
        Os::Windows => "Windows"@,
    }
}

/// The label under which an architecture appears in a failure message.
pub open spec fn arch_label(arch: Arch) -> Seq<char> {
    match arch {
        Arch::Aarch64 => "Aarch64"@,
        Arch::X86 => "X86"@,
        Arch::X8664 => "X8664"@,
    }
}

/// The exact text of the message that each failure carries.
pub open spec fn message_of(e: ProvisionError) -> Seq<char> {
    match e {
        ProvisionError::UnsupportedPlatform { os, arch } => "Unsupported platform: "@ + os_label(
            os,
        ) + " "@ + arch_label(arch),
        ProvisionError::ReleaseDiscovery { message } => message@,
        ProvisionError::AssetNotFound { asset_name } => "No asset found for "@ + asset_name@,
        ProvisionError::DirectoryCreation { message } => "Failed to create directory: "@
            + message@,
        ProvisionError::DownloadTransport { message } => "Failed to download file: "@ + message@,
        ProvisionError::MarkExecutable { message } => message@,
        ProvisionError::DownloadVerification => "Failed to download language server"@,
    }
}

impl ProvisionError {
    /// The single string surfaced to the host for this failure.
    pub fn message(&self) -> (r: String)
        ensures
            r@ == message_of(*self),
    {
        match self {
            ProvisionError::UnsupportedPlatform { os, arch } => {
                let os_text = match os {
                    Os::Mac => "Mac",
                    Os::Linux => "Linux",
                    Os::Windows => "Windows",
                };
                let arch_text = match arch {
                    Arch::Aarch64 => "Aarch64",
                    Arch::X86 => "X86",
                    Arch::X8664 => "X8664",
                };
                String::from_str("Unsupported platform: ").concat(os_text).concat(" ").concat(
                    arch_text,
                )
            },
            ProvisionError::ReleaseDiscovery { message } => message.clone(),
            ProvisionError::AssetNotFound { asset_name } => String::from_str(
                "No asset found for ",
            ).concat(asset_name.as_str()),
            ProvisionError::DirectoryCreation { message } => String::from_str(
                "Failed to create directory: ",
            ).concat(message.as_str()),
            ProvisionError::DownloadTransport { message } => String::from_str(
                "Failed to download file: ",
            ).concat(message.as_str()),
            ProvisionError::MarkExecutable { message } => message.clone(),
            ProvisionError::DownloadVerification => String::from_str(
                "Failed to download language server",
            ),
        }
    }
}

} // verus!
