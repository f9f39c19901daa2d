use wordforge_desktop::opencode::{
    archive_kind, check_update_available, download_progress, find_platform_asset,
    get_or_assign_port, get_platform_identifier, readiness_step, readiness_timeout, resolve_port,
    spawn_args, spawn_env_flags, ArchiveKind, Error, GitHubAsset, GitHubRelease, OpenCodeManager,
    PortChoice, ReadyStep, Status,
};

fn release(names: &[&str]) -> GitHubRelease {
    GitHubRelease {
        tag_name: "v1.2.3".to_string(),
        assets: names
            .iter()
            .map(|n| GitHubAsset {
                name: n.to_string(),
                browser_download_url: format!("https://dl.test/{n}"),
            })
            .collect(),
    }
}

#[test]
fn platform_names() {
    assert_eq!(get_platform_identifier("macos", "aarch64"), Ok(("darwin", "arm64")));
    assert_eq!(get_platform_identifier("linux", "x86_64"), Ok(("linux", "x64")));
    assert_eq!(get_platform_identifier("windows", "x86_64"), Ok(("win32", "x64")));
    assert_eq!(
        get_platform_identifier("freebsd", "x86_64"),
        Err(Error::UnsupportedPlatform("freebsd".to_string()))
    );
    assert_eq!(
        get_platform_identifier("linux", "riscv64"),
        Err(Error::UnsupportedPlatform("riscv64".to_string()))
    );
}

#[test]
fn platform_asset_is_first_archive_for_the_platform() {
    let r = release(&[
        "opencode-linux-x64.deb",
        "opencode-linux-x64.tar.gz",
        "opencode-linux-x64.zip",
        "opencode-darwin-arm64.zip",
    ]);
    assert_eq!(find_platform_asset(&r, "linux", "x86_64").unwrap().name, "opencode-linux-x64.tar.gz");
    assert_eq!(find_platform_asset(&r, "macos", "aarch64").unwrap().name, "opencode-darwin-arm64.zip");
    assert_eq!(
        find_platform_asset(&r, "windows", "x86_64"),
        Err(Error::UnsupportedPlatform("win32-x64".to_string()))
    );
    assert_eq!(
        find_platform_asset(&r, "plan9", "x86_64"),
        Err(Error::UnsupportedPlatform("plan9".to_string()))
    );
}

#[test]
fn archive_kind_by_extension() {
    assert_eq!(archive_kind("/x/opencode-linux-x64.tar.gz"), Ok(ArchiveKind::TarGz));
    assert_eq!(archive_kind("opencode-darwin-arm64.zip"), Ok(ArchiveKind::Zip));
    assert_eq!(
        archive_kind("opencode.deb"),
        Err(Error::ExtractionFailed("Unknown archive format".to_string()))
    );
}

#[test]
fn update_available_compares_trimmed_versions() {
    assert!(check_update_available(None, "v1.0.0"));
    assert!(!check_update_available(Some(" v1.0.0\n"), "v1.0.0"));
    assert!(check_update_available(Some("v1.0.0"), "v1.0.1"));
}

#[test]
fn download_progress_fills_twenty_to_eighty() {
    assert_eq!(download_progress(0, 0), None);
    assert_eq!(download_progress(10, 0), None);
    assert_eq!(download_progress(0, 100), Some(20));
    assert_eq!(download_progress(50, 100), Some(50));
    assert_eq!(download_progress(1, 3), Some(40));
    assert_eq!(download_progress(99, 100), Some(79));
    assert_eq!(download_progress(100, 100), Some(80));
    assert_eq!(download_progress(u64::MAX - 1, u64::MAX), Some(79));
}

#[test]
fn readiness_gives_up_after_thirty_probes() {
    assert_eq!(readiness_step(0, true), ReadyStep::Ready);
    assert_eq!(readiness_step(0, false), ReadyStep::Retry);
    assert_eq!(readiness_step(28, false), ReadyStep::Retry);
    assert_eq!(readiness_step(29, false), ReadyStep::GiveUp);
    assert_eq!(readiness_step(29, true), ReadyStep::Ready);
    assert_eq!(readiness_timeout().message(), "Download failed: OpenCode failed to start within timeout");
}

#[test]
fn spawn_arguments_and_environment() {
    assert_eq!(spawn_args(4096, None), vec!["serve", "--port", "4096"]);
    assert_eq!(
        spawn_args(0, Some("https://x.test")),
        vec!["serve", "--port", "0", "--cors", "https://x.test"]
    );
    let env = spawn_env_flags();
    assert_eq!(env.len(), 5);
    assert!(env.contains(&("OPENCODE_DISABLE_AUTOUPDATE".to_string(), "true".to_string())));
    assert!(env.contains(&("OPENCODE_AUTO_SHARE".to_string(), "false".to_string())));
    assert!(env.contains(&("OPENCODE_DISABLE_LSP_DOWNLOAD".to_string(), "true".to_string())));
}

#[test]
fn port_resolution_reuses_free_saved_port() {
    assert_eq!(resolve_port(Some(4000), true, Some(5000)), Ok(PortChoice { port: 4000, persist: false }));
    assert_eq!(resolve_port(Some(4000), true, None), Ok(PortChoice { port: 4000, persist: false }));
}

#[test]
fn port_resolution_replaces_taken_saved_port() {
    assert_eq!(resolve_port(Some(4000), false, Some(5000)), Ok(PortChoice { port: 5000, persist: true }));
    assert_eq!(resolve_port(None, false, Some(5000)), Ok(PortChoice { port: 5000, persist: true }));
    assert_eq!(resolve_port(Some(4000), false, None), Err(Error::NoAvailablePort));
}

#[test]
fn port_marker_that_does_not_parse_is_replaced() {
    let choice = get_or_assign_port(Some("not a port")).unwrap();
    assert!(choice.persist);
    let choice = get_or_assign_port(None).unwrap();
    assert!(choice.persist);
    assert_ne!(choice.port, 0);
}

#[test]
fn start_while_running_is_refused_and_stop_is_idempotent() {
    let mut m: OpenCodeManager<u32> = OpenCodeManager::new("/opt/opencode".to_string());
    assert_eq!(m.get_status(false), Status::NotInstalled);
    assert_eq!(m.get_status(true), Status::Stopped);
    assert_eq!(m.check_start(false), Err(Error::NotInstalled));
    assert_eq!(m.check_start(true), Ok(()));
    assert_eq!(m.stop(), None);
    assert_eq!(m.get_port(), None);
    m.attach(7, 4321);
    assert_eq!(m.get_status(true), Status::Running);
    assert_eq!(m.check_start(true), Err(Error::AlreadyRunning));
    assert_eq!(m.get_port(), Some(4321));
    assert_eq!(m.process, Some(7));
    assert_eq!(m.stop(), Some(7));
    assert_eq!(m.get_port(), None);
    assert_eq!(m.get_status(true), Status::Stopped);
}

#[test]
fn error_messages() {
    assert_eq!(Error::AlreadyRunning.message(), "OpenCode is already running");
    assert_eq!(Error::NotInstalled.message(), "OpenCode is not installed");
    assert_eq!(Error::NoAvailablePort.message(), "Failed to find available port");
    assert_eq!(Error::UnsupportedPlatform("plan9".to_string()).message(), "Unsupported platform: plan9");
}

#[test]
fn persisted_free_port_is_reused() {
    let free = portpicker::pick_unused_port().expect("a free port");
    let marker = format!(" {free}\n");
    assert_eq!(get_or_assign_port(Some(&marker)), Ok(PortChoice { port: free, persist: false }));
}
