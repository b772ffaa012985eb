use conl_provision::error::ProvisionError;
use conl_provision::platform::{Arch, Os, asset_name};
use conl_provision::provision::{
    Action, AssetDescriptor, Event, HostCall, InstallationStatus, Provisioner, ReleaseDescriptor,
    find_asset, launch_command,
};

fn release(version: &str, assets: &[(&str, &str)]) -> ReleaseDescriptor {
    ReleaseDescriptor {
        version: version.to_string(),
        assets: assets
            .iter()
            .map(|(name, url)| AssetDescriptor {
                name: name.to_string(),
                download_url: url.to_string(),
            })
            .collect(),
    }
}

/// Drive a fresh machine up to the point where the on-disk cache is probed.
fn drive_to_cache_probe(p: &mut Provisioner, rel: ReleaseDescriptor, os: Os, arch: Arch) {
    let t = p.step(Event::Begin);
    assert_eq!(t.announce, Some(InstallationStatus::CheckingForUpdate));
    match t.action {
        Action::Perform {
            call: HostCall::FetchLatestRelease { repository, require_assets, pre_release },
        } => {
            assert_eq!(repository, "ConradIrwin/conl-lsp");
            assert!(require_assets);
            assert!(!pre_release);
        }
        other => panic!("expected a release fetch, got {:?}", other),
    }
    let t = p.step(Event::ReleaseFetched { result: Ok(rel) });
    assert_eq!(t.announce, None);
    assert!(matches!(t.action, Action::Perform { call: HostCall::QueryPlatform }));
    let t = p.step(Event::PlatformDetected { os, arch });
    assert_eq!(t.announce, None);
    match t.action {
        Action::Perform { call: HostCall::CreateDirAll { path } } => {
            assert!(path.starts_with("conl-lsp-"));
        }
        other => panic!("expected a directory creation, got {:?}", other),
    }
    let t = p.step(Event::DirCreated { result: Ok(()) });
    assert_eq!(t.announce, None);
    assert!(matches!(t.action, Action::Perform { call: HostCall::ProbeRegularFile { .. } }));
}

#[test]
fn platform_mapping_all_six_supported_pairs() {
    assert_eq!(asset_name(Os::Mac, Arch::Aarch64), Ok("conl-lsp-darwin-arm64"));
    assert_eq!(asset_name(Os::Mac, Arch::X8664), Ok("conl-lsp-darwin-amd64"));
    assert_eq!(asset_name(Os::Linux, Arch::Aarch64), Ok("conl-lsp-linux-arm64"));
    assert_eq!(asset_name(Os::Linux, Arch::X8664), Ok("conl-lsp-linux-amd64"));
    assert_eq!(asset_name(Os::Windows, Arch::Aarch64), Ok("conl-lsp-windows-arm64"));
    assert_eq!(asset_name(Os::Windows, Arch::X8664), Ok("conl-lsp-windows-amd64"));
}

#[test]
fn platform_mapping_rejects_every_other_pair() {
    assert_eq!(asset_name(Os::Mac, Arch::X86), Err((Os::Mac, Arch::X86)));
    assert_eq!(asset_name(Os::Linux, Arch::X86), Err((Os::Linux, Arch::X86)));
    assert_eq!(asset_name(Os::Windows, Arch::X86), Err((Os::Windows, Arch::X86)));
}

#[test]
fn cold_resolution_downloads_to_the_computed_path() {
    // Release 1.2.3 on (mac, aarch64) with the matching asset present but
    // no file on disk: the downloader must get that asset's URL and the
    // exact destination conl-lsp-1.2.3/conl-lsp-darwin-arm64.
    let mut p = Provisioner::new();
    let rel = release("1.2.3", &[("conl-lsp-darwin-arm64", "https://example.invalid/a")]);
    drive_to_cache_probe(&mut p, rel, Os::Mac, Arch::Aarch64);

    let t = p.step(Event::FileProbed { present: false });
    assert_eq!(t.announce, Some(InstallationStatus::Downloading));
    match t.action {
        Action::Perform { call: HostCall::DownloadFile { url, destination } } => {
            assert_eq!(url, "https://example.invalid/a");
            assert_eq!(destination, "conl-lsp-1.2.3/conl-lsp-darwin-arm64");
        }
        other => panic!("expected a download, got {:?}", other),
    }
    let t = p.step(Event::Downloaded { result: Ok(()) });
    assert_eq!(t.announce, None);
    match t.action {
        Action::Perform { call: HostCall::MakeFileExecutable { path } } => {
            assert_eq!(path, "conl-lsp-1.2.3/conl-lsp-darwin-arm64");
        }
        other => panic!("expected the executable bit, got {:?}", other),
    }
    let t = p.step(Event::ExecutableMarked { result: Ok(()) });
    assert!(matches!(t.action, Action::Perform { call: HostCall::ProbeRegularFile { .. } }));
    let t = p.step(Event::FileProbed { present: true });
    assert_eq!(t.announce, Some(InstallationStatus::Idle));
    match t.action {
        Action::Resolved { path } => assert_eq!(path, "conl-lsp-1.2.3/conl-lsp-darwin-arm64"),
        other => panic!("expected resolution, got {:?}", other),
    }
}

#[test]
fn second_resolution_hits_the_memory_cache() {
    // After one success, a second request answers at once: same path, no
    // announcement, no host call, so release discovery ran exactly once.
    let mut p = Provisioner::new();
    let rel = release("1.2.3", &[("conl-lsp-darwin-arm64", "https://example.invalid/a")]);
    drive_to_cache_probe(&mut p, rel, Os::Mac, Arch::Aarch64);
    let t = p.step(Event::FileProbed { present: true });
    let first = match t.action {
        Action::Resolved { path } => path,
        other => panic!("expected resolution, got {:?}", other),
    };

    let t = p.step(Event::Begin);
    assert_eq!(t.announce, None);
    match t.action {
        Action::Resolved { path } => assert_eq!(path, first),
        other => panic!("expected an immediate resolution, got {:?}", other),
    }
}

#[test]
fn pre_existing_file_skips_the_download() {
    // A regular file already at the computed path: resolution returns that
    // path without ever commanding a download.
    let mut p = Provisioner::new();
    let rel = release("2.0.0", &[("conl-lsp-linux-amd64", "https://example.invalid/b")]);
    drive_to_cache_probe(&mut p, rel, Os::Linux, Arch::X8664);
    let t = p.step(Event::FileProbed { present: true });
    assert_eq!(t.announce, None);
    match t.action {
        Action::Resolved { path } => assert_eq!(path, "conl-lsp-2.0.0/conl-lsp-linux-amd64"),
        other => panic!("expected resolution, got {:?}", other),
    }
}

#[test]
fn verification_failure_reports_failed_and_caches_nothing() {
    // The downloader reports success but leaves no file: the attempt must
    // announce Failed, return the verification error, and leave the memory
    // cache empty, so the next request starts over from release discovery.
    let mut p = Provisioner::new();
    let rel = release("1.2.3", &[("conl-lsp-darwin-arm64", "https://example.invalid/a")]);
    drive_to_cache_probe(&mut p, rel, Os::Mac, Arch::Aarch64);
    p.step(Event::FileProbed { present: false });
    p.step(Event::Downloaded { result: Ok(()) });
    p.step(Event::ExecutableMarked { result: Ok(()) });
    let t = p.step(Event::FileProbed { present: false });
    assert_eq!(
        t.announce,
        Some(InstallationStatus::Failed("Failed to download language server".to_string()))
    );
    match t.action {
        Action::Failed { error } => {
            assert_eq!(error, ProvisionError::DownloadVerification);
            assert_eq!(error.message(), "Failed to download language server");
        }
        other => panic!("expected the verification failure, got {:?}", other),
    }

    let t = p.step(Event::Begin);
    assert_eq!(t.announce, Some(InstallationStatus::CheckingForUpdate));
    assert!(matches!(
        t.action,
        Action::Perform { call: HostCall::FetchLatestRelease { .. } }
    ));
}

#[test]
fn missing_asset_on_supported_platform_is_asset_not_found() {
    // (linux, x86-64) with a release holding only the darwin-arm64 asset:
    // the failure is asset-not-found, not unsupported-platform, and no
    // download is ever commanded.
    let mut p = Provisioner::new();
    let rel = release("1.2.3", &[("conl-lsp-darwin-arm64", "https://example.invalid/a")]);
    p.step(Event::Begin);
    p.step(Event::ReleaseFetched { result: Ok(rel) });
    let t = p.step(Event::PlatformDetected { os: Os::Linux, arch: Arch::X8664 });
    assert_eq!(t.announce, None);
    match t.action {
        Action::Failed { error } => {
            assert_eq!(
                error,
                ProvisionError::AssetNotFound { asset_name: "conl-lsp-linux-amd64".to_string() }
            );
            assert_eq!(error.message(), "No asset found for conl-lsp-linux-amd64");
        }
        other => panic!("expected asset-not-found, got {:?}", other),
    }
}

#[test]
fn empty_asset_list_is_asset_not_found() {
    let mut p = Provisioner::new();
    let rel = release("1.2.3", &[]);
    p.step(Event::Begin);
    p.step(Event::ReleaseFetched { result: Ok(rel) });
    let t = p.step(Event::PlatformDetected { os: Os::Mac, arch: Arch::Aarch64 });
    assert!(matches!(t.action, Action::Failed { error: ProvisionError::AssetNotFound { .. } }));
}

#[test]
fn unsupported_platform_is_its_own_error() {
    let mut p = Provisioner::new();
    let rel = release("1.2.3", &[("conl-lsp-darwin-arm64", "https://example.invalid/a")]);
    p.step(Event::Begin);
    p.step(Event::ReleaseFetched { result: Ok(rel) });
    let t = p.step(Event::PlatformDetected { os: Os::Mac, arch: Arch::X86 });
    match t.action {
        Action::Failed { error } => {
            assert_eq!(error, ProvisionError::UnsupportedPlatform { os: Os::Mac, arch: Arch::X86 });
            assert_eq!(error.message(), "Unsupported platform: Mac X86");
        }
        other => panic!("expected unsupported-platform, got {:?}", other),
    }
}

#[test]
fn release_discovery_failure_passes_the_message_through() {
    let mut p = Provisioner::new();
    p.step(Event::Begin);
    let t = p.step(Event::ReleaseFetched { result: Err("no releases found".to_string()) });
    match t.action {
        Action::Failed { error } => {
            assert_eq!(
                error,
                ProvisionError::ReleaseDiscovery { message: "no releases found".to_string() }
            );
            assert_eq!(error.message(), "no releases found");
        }
        other => panic!("expected a discovery failure, got {:?}", other),
    }
}

#[test]
fn directory_creation_failure_is_prefixed() {
    let mut p = Provisioner::new();
    let rel = release("1.2.3", &[("conl-lsp-darwin-arm64", "https://example.invalid/a")]);
    p.step(Event::Begin);
    p.step(Event::ReleaseFetched { result: Ok(rel) });
    p.step(Event::PlatformDetected { os: Os::Mac, arch: Arch::Aarch64 });
    let t = p.step(Event::DirCreated { result: Err("permission denied".to_string()) });
    match t.action {
        Action::Failed { error } => {
            assert_eq!(error.message(), "Failed to create directory: permission denied");
        }
        other => panic!("expected a directory failure, got {:?}", other),
    }
}

#[test]
fn download_transport_failure_is_prefixed_and_not_announced() {
    let mut p = Provisioner::new();
    let rel = release("1.2.3", &[("conl-lsp-darwin-arm64", "https://example.invalid/a")]);
    drive_to_cache_probe(&mut p, rel, Os::Mac, Arch::Aarch64);
    p.step(Event::FileProbed { present: false });
    let t = p.step(Event::Downloaded { result: Err("connection reset".to_string()) });
    assert_eq!(t.announce, None);
    match t.action {
        Action::Failed { error } => {
            assert_eq!(error.message(), "Failed to download file: connection reset");
        }
        other => panic!("expected a transport failure, got {:?}", other),
    }
}

#[test]
fn mark_executable_failure_passes_the_message_through() {
    let mut p = Provisioner::new();
    let rel = release("1.2.3", &[("conl-lsp-darwin-arm64", "https://example.invalid/a")]);
    drive_to_cache_probe(&mut p, rel, Os::Mac, Arch::Aarch64);
    p.step(Event::FileProbed { present: false });
    p.step(Event::Downloaded { result: Ok(()) });
    let t = p.step(Event::ExecutableMarked { result: Err("read-only filesystem".to_string()) });
    match t.action {
        Action::Failed { error } => {
            assert_eq!(error, ProvisionError::MarkExecutable {
                message: "read-only filesystem".to_string()
            });
            assert_eq!(error.message(), "read-only filesystem");
        }
        other => panic!("expected a permission failure, got {:?}", other),
    }
}

#[test]
fn find_asset_takes_the_first_of_equal_names() {
    let assets = vec![
        AssetDescriptor { name: "other".to_string(), download_url: "u0".to_string() },
        AssetDescriptor { name: "twin".to_string(), download_url: "u1".to_string() },
        AssetDescriptor { name: "twin".to_string(), download_url: "u2".to_string() },
    ];
    assert_eq!(find_asset(&assets, &"twin".to_string()), Some(1));
    assert_eq!(find_asset(&assets, &"absent".to_string()), None);
    assert_eq!(find_asset(&Vec::new(), &"twin".to_string()), None);
}

#[test]
fn duplicate_asset_names_download_the_first_url() {
    let mut p = Provisioner::new();
    let rel = release(
        "3.1.4",
        &[
            ("conl-lsp-darwin-arm64", "https://example.invalid/first"),
            ("conl-lsp-darwin-arm64", "https://example.invalid/second"),
        ],
    );
    drive_to_cache_probe(&mut p, rel, Os::Mac, Arch::Aarch64);
    let t = p.step(Event::FileProbed { present: false });
    match t.action {
        Action::Perform { call: HostCall::DownloadFile { url, .. } } => {
            assert_eq!(url, "https://example.invalid/first");
        }
        other => panic!("expected a download, got {:?}", other),
    }
}

#[test]
fn launch_command_has_no_args_and_no_env() {
    let c = launch_command("conl-lsp-1.2.3/conl-lsp-darwin-arm64".to_string());
    assert_eq!(c.executable_path, "conl-lsp-1.2.3/conl-lsp-darwin-arm64");
    assert!(c.args.is_empty());
    assert!(c.env.is_empty());
}
