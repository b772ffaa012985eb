//! Mapping from a (host OS, CPU architecture) pair to the release asset
//! name expected for that platform.
//!
//! The naming convention is `conl-lsp-<os>-<arch>` with os tokens
//! `darwin` / `linux` / `windows` and arch tokens `arm64` / `amd64`.
//! 32-bit x86 hosts have no published asset and are unsupported.

use vstd::prelude::*;

verus! {

/// Operating system of the host, as reported by its runtime environment.
#[derive(Clone, Copy, Debug, PartialEq, Eq, Structural)]
pub enum Os {
    Mac,
    Linux,
    Windows,
}

/// CPU architecture of the host, as reported by its runtime environment.
#[derive(Clone, Copy, Debug, PartialEq, Eq, Structural)]
pub enum Arch {
    Aarch64,
    X86,
    X8664,
}

/// The asset-name token for an operating system.
pub open spec fn os_token(os: Os) -> Seq<char> {
    match os {
        Os::Mac => "darwin"@,
        Os::Linux => "linux"@,
        Os::Windows => "windows"@,
    }
}

/// The asset-name token for an architecture; empty for the unsupported one.
pub open spec fn arch_token(arch: Arch) -> Seq<char> {
    match arch {
        Arch::Aarch64 => "arm64"@,
        Arch::X8664 => "amd64"@,
        Arch::X86 => Seq::<char>::empty(),
    }
}

/// Whether a (OS, architecture) pair has a published asset. Every 64-bit
/// pair does; 32-bit x86 does not, on any operating system.
pub open spec fn platform_supported(os: Os, arch: Arch) -> bool {
    !(arch is X86)
}

/// The asset name expected for a supported platform:
/// `conl-lsp-<os>-<arch>`.
pub open spec fn expected_asset_name(os: Os, arch: Arch) -> Seq<char>
    recommends
        platform_supported(os, arch),
{
    "conl-lsp-"@ + os_token(os) + "-"@ + arch_token(arch)
}

/// Resolve the asset name for a platform, or report that the platform has
/// no published asset. Exactly the supported pairs succeed.
pub fn asset_name(os: Os, arch: Arch) -> (r: Result<&'static str, (Os, Arch)>)
    ensures
        r is Ok <==> platform_supported(os, arch),
        r matches Ok(name) ==> name@ == expected_asset_name(os, arch),
        r matches Err(p) ==> p == (os, arch),
{
    proof {
        reveal_strlit("conl-lsp-");
        reveal_strlit("darwin");
        reveal_strlit("linux");
        reveal_strlit("windows");
        reveal_strlit("arm64");
        reveal_strlit("amd64");
        reveal_strlit("conl-lsp-darwin-arm64");
        reveal_strlit("conl-lsp-darwin-amd64");
        reveal_strlit("conl-lsp-linux-arm64");
        reveal_strlit("conl-lsp-linux-amd64");
        reveal_strlit("conl-lsp-windows-arm64");
        reveal_strlit("conl-lsp-windows-amd64");
        reveal_strlit("-");
    }
    match (os, arch) {
        (Os::Mac, Arch::Aarch64) => {
            proof {
                assert("conl-lsp-darwin-arm64"@ =~= expected_asset_name(os, arch));
            }
            Ok("conl-lsp-darwin-arm64")
        },
        (Os::Mac, Arch::X8664) => {
            proof {
                assert("conl-lsp-darwin-amd64"@ =~= expected_asset_name(os, arch));
            }
            Ok("conl-lsp-darwin-amd64")
        },
        (Os::Linux, Arch::Aarch64) => {
            proof {
                assert("conl-lsp-linux-arm64"@ =~= expected_asset_name(os, arch));
            }
            Ok("conl-lsp-linux-arm64")
        },
        (Os::Linux, Arch::X8664) => {
            proof {
                assert("conl-lsp-linux-amd64"@ =~= expected_asset_name(os, arch));
            }
            Ok("conl-lsp-linux-amd64")
        },
        (Os::Windows, Arch::Aarch64) => {
            proof {
                assert("conl-lsp-windows-arm64"@ =~= expected_asset_name(os, arch));
            }
            Ok("conl-lsp-windows-arm64")
        },
        (Os::Windows, Arch::X8664) => {
            proof {
                assert("conl-lsp-windows-amd64"@ =~= expected_asset_name(os, arch));
            }
            Ok("conl-lsp-windows-amd64")
        },
        (_, Arch::X86) => Err((os, arch)),
    }
}

} // verus!
