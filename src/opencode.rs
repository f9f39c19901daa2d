//! The sidecar: its release selection and installed version, and the
//! supervisor's decisions around the child process and its port.

use vstd::prelude::*;
use crate::text::{
    contains, decimal_of, ends_with, has_infix, has_suffix, parse_u16, parse_u16_spec, str_eq,
    trim, trimmed, u16_text,
};

verus! {

/// Failures of the installer and the supervisor.
#[derive(Debug, Clone, PartialEq, Eq)]
pub enum Error {
    Http(String),
    Io(String),
    Json(String),
    NotInstalled,
    AlreadyRunning,
    NoAvailablePort,
    UnsupportedPlatform(String),
    ExtractionFailed(String),
    DownloadFailed(String),
}

impl Error {
    /// The human-readable text of the error.
    pub fn message(&self) -> (r: String)
        ensures
            r@ == self.message_spec(),
    {
        let (prefix, detail): (&str, &str) = match self {
            Error::Http(d) => ("HTTP request failed: ", d.as_str()),
            Error::Io(d) => ("IO error: ", d.as_str()),
            Error::Json(d) => ("JSON parse error: ", d.as_str()),
            Error::NotInstalled => ("OpenCode is not installed", ""),
            Error::AlreadyRunning => ("OpenCode is already running", ""),
            Error::NoAvailablePort => ("Failed to find available port", ""),
            Error::UnsupportedPlatform(d) => ("Unsupported platform: ", d.as_str()),
            Error::ExtractionFailed(d) => ("Archive extraction failed: ", d.as_str()),
            Error::DownloadFailed(d) => ("Download failed: ", d.as_str()),
        };
        let mut r = String::from_str(prefix);
        r.append(detail);
        r
    }

    pub open spec fn message_spec(&self) -> Seq<char> {
        match self {
            Error::Http(d) => "HTTP request failed: "@ + d@,
            Error::Io(d) => "IO error: "@ + d@,
            Error::Json(d) => "JSON parse error: "@ + d@,
            Error::NotInstalled => "OpenCode is not installed"@ + ""@,
            Error::AlreadyRunning => "OpenCode is already running"@ + ""@,
            Error::NoAvailablePort => "Failed to find available port"@ + ""@,
            Error::UnsupportedPlatform(d) => "Unsupported platform: "@ + d@,
            Error::ExtractionFailed(d) => "Archive extraction failed: "@ + d@,
            Error::DownloadFailed(d) => "Download failed: "@ + d@,
        }
    }
}

/// What the supervisor reports of the sidecar.
#[derive(Debug, Clone, PartialEq, Eq)]
pub enum Status {
    NotInstalled,
    Stopped,
    Starting,
    Running,
    Error(String),
}

/// A published release of the sidecar.
#[derive(Debug, Clone, PartialEq, Eq)]
pub struct GitHubRelease {
    pub tag_name: String,
    pub assets: Vec<GitHubAsset>,
}

/// One downloadable file of a release.
#[derive(Debug, Clone, PartialEq, Eq)]
pub struct GitHubAsset {
    pub name: String,
    pub browser_download_url: String,
}

/// The platform names that release assets use for an operating system, as
/// `std::env::consts::OS` spells it.
pub open spec fn os_name(os: Seq<char>) -> Option<Seq<char>> {
    if os == "macos"@ {
        Some("darwin"@)
    } else if os == "linux"@ {
        Some("linux"@)
    } else if os == "windows"@ {
        Some("win32"@)
    } else {
        None
    }
}

/// The names that release assets use for an architecture, as
/// `std::env::consts::ARCH` spells it.
pub open spec fn arch_name(arch: Seq<char>) -> Option<Seq<char>> {
    if arch == "x86_64"@ {
        Some("x64"@)
    } else if arch == "aarch64"@ {
        Some("arm64"@)
    } else {
        None
    }
}

/// The release names of this operating system and architecture;
/// `UnsupportedPlatform` naming the first of the two that has none.
pub fn get_platform_identifier(os: &str, arch: &str) -> (r: Result<(&'static str, &'static str), Error>)
    ensures
        match r {
            Ok((o, a)) => os_name(os@) == Some(o@) && arch_name(arch@) == Some(a@),
            Err(Error::UnsupportedPlatform(d)) => if os_name(os@) is None {
                d@ == os@
            } else {
                arch_name(arch@) is None && d@ == arch@
            },
            Err(_) => false,
        },
{
    let o = if str_eq(os, "macos") {
        "darwin"
    } else if str_eq(os, "linux") {
        "linux"
    } else if str_eq(os, "windows") {
        "win32"
    } else {
        return Err(Error::UnsupportedPlatform(String::from_str(os)));
    };
    let a = if str_eq(arch, "x86_64") {
        "x64"
    } else if str_eq(arch, "aarch64") {
        "arm64"
    } else {
        return Err(Error::UnsupportedPlatform(String::from_str(arch)));
    };
    Ok((o, a))
}

/// An asset for the platform `pattern` (`<os>-<arch>`): its name holds the
/// pattern and ends in `.tar.gz` or `.zip`.
pub open spec fn asset_matches(name: Seq<char>, pattern: Seq<char>) -> bool {
    has_infix(name, pattern) && (has_suffix(name, ".tar.gz"@) || has_suffix(name, ".zip"@))
}

/// The first asset of `release` built for this operating system and
/// architecture. `UnsupportedPlatform` where the platform has no release name
/// (naming it as `get_platform_identifier` does) or no asset matches (naming
/// the pattern).
pub fn find_platform_asset<'a>(release: &'a GitHubRelease, os: &str, arch: &str) -> (r: Result<&'a GitHubAsset, Error>)
    ensures
        match (os_name(os@), arch_name(arch@)) {
            (Some(o), Some(a)) => {
                let pattern = o + "-"@ + a;
                match r {
                    Ok(asset) => exists|i: int|
                        0 <= i < release.assets@.len() && release.assets@[i] == *asset
                            && asset_matches(asset.name@, pattern) && forall|j: int|
                            0 <= j < i ==> !asset_matches(#[trigger] release.assets@[j].name@, pattern),
                    Err(e) => e == Error::UnsupportedPlatform(e.detail()) && e.detail()@ == pattern
                        && forall|j: int|
                        0 <= j < release.assets@.len() ==> !asset_matches(
                            #[trigger] release.assets@[j].name@,
                            pattern,
                        ),
                }
            },
            _ => r is Err,
        },
{
    let (o, a) = match get_platform_identifier(os, arch) {
        Ok(p) => p,
        Err(e) => return Err(e),
    };
    let mut pattern = String::from_str(o);
    pattern.append("-");
    pattern.append(a);
    let n = release.assets.len();
    let mut i: usize = 0;
    while i < n
        invariant
            n == release.assets@.len(),
            i <= n,
            os_name(os@) == Some(o@),
            arch_name(arch@) == Some(a@),
            pattern@ == o@ + "-"@ + a@,
            forall|j: int| 0 <= j < i ==> !asset_matches(#[trigger] release.assets@[j].name@, pattern@),
        decreases n - i,
    {
        let name = release.assets[i].name.as_str();
        if contains(name, pattern.as_str()) && (ends_with(name, ".tar.gz") || ends_with(name, ".zip")) {
            assert(asset_matches(release.assets@[i as int].name@, pattern@));
            return Ok(&release.assets[i]);
        }
        i = i + 1;
    }
    Err(Error::UnsupportedPlatform(pattern))
}

impl Error {
    /// The text that a kind carries, empty for those that carry none.
    pub open spec fn detail(&self) -> String {
        match self {
            Error::Http(d) => *d,
            Error::Io(d) => *d,
            Error::Json(d) => *d,
            Error::UnsupportedPlatform(d) => *d,
            Error::ExtractionFailed(d) => *d,
            Error::DownloadFailed(d) => *d,
            _ => arbitrary(),
        }
    }
}

/// How a downloaded archive is unpacked.
#[derive(Debug, Clone, Copy, PartialEq, Eq)]
pub enum ArchiveKind {
    TarGz,
    Zip,
}

/// The unpacking that an archive's name calls for: `.tar.gz` is a gzip'd
/// tar, `.zip` a zip; any other name is an `ExtractionFailed`.
pub fn archive_kind(name: &str) -> (r: Result<ArchiveKind, Error>)
    ensures
        has_suffix(name@, ".tar.gz"@) ==> r == Ok::<ArchiveKind, Error>(ArchiveKind::TarGz),
        !has_suffix(name@, ".tar.gz"@) && has_suffix(name@, ".zip"@) ==> r == Ok::<ArchiveKind, Error>(ArchiveKind::Zip),
        !has_suffix(name@, ".tar.gz"@) && !has_suffix(name@, ".zip"@) ==> (r matches Err(Error::ExtractionFailed(d)) && d@ == "Unknown archive format"@),
{
    if ends_with(name, ".tar.gz") {
        Ok(ArchiveKind::TarGz)
    } else if ends_with(name, ".zip") {
        Ok(ArchiveKind::Zip)
    } else {
        Err(Error::ExtractionFailed(String::from_str("Unknown archive format")))
    }
}

/// Whether the latest release differs from the installed one: true when none
/// is installed, else when the two differ once trimmed.
pub fn check_update_available(installed: Option<&str>, latest: &str) -> (r: bool)
    ensures
        r == match installed {
            Some(v) => trimmed(v@) != trimmed(latest@),
            None => true,
        },
{
    match installed {
        Some(v) => {
            let a = trim(v);
            let b = trim(latest);
            !str_eq(a.as_str(), b.as_str())
        },
        None => true,
    }
}

/// The share of overall progress where the download itself runs: from 20 to
/// 80 percent.
pub const DOWNLOAD_PROGRESS_START: u32 = 20;

pub const DOWNLOAD_PROGRESS_SPAN: u32 = 60;

/// Overall progress while `downloaded` of `total` bytes have arrived, or
/// nothing when the total is unknown (zero). The download fills
/// `[20, 80]` in proportion, rounded down, and stops at 80.
pub fn download_progress(downloaded: u64, total: u64) -> (r: Option<u32>)
    ensures
        total == 0 ==> r is None,
        total > 0 && downloaded >= total ==> r == Some(80u32),
        total > 0 && downloaded < total ==> r == Some(
            (20 + (downloaded as int) * 60 / (total as int)) as u32,
        ),
{
    if total == 0 {
        return None;
    }
    if downloaded >= total {
        return Some(DOWNLOAD_PROGRESS_START + DOWNLOAD_PROGRESS_SPAN);
    }
    let scaled: u128 = (downloaded as u128) * (DOWNLOAD_PROGRESS_SPAN as u128);
    let share: u128 = scaled / (total as u128);
    assert((downloaded as int) * 60 / (total as int) < 60) by (nonlinear_arith)
        requires
            (downloaded as int) < (total as int),
            total > 0,
    ;
    Some(DOWNLOAD_PROGRESS_START + share as u32)
}

/// How many times readiness is probed after a start.
pub const MAX_READY_ATTEMPTS: u32 = 30;

/// The pause between two readiness probes, in milliseconds.
pub const READY_POLL_INTERVAL_MS: u64 = 500;

/// What follows one readiness probe.
#[derive(Debug, Clone, Copy, PartialEq, Eq)]
pub enum ReadyStep {
    /// The sidecar answered.
    Ready,
    /// Wait `READY_POLL_INTERVAL_MS`, then probe again.
    Retry,
    /// Every attempt failed.
    GiveUp,
}

/// The step after probe number `attempt` (from 0) answered `answered`.
pub fn readiness_step(attempt: u32, answered: bool) -> (r: ReadyStep)
    requires
        attempt < MAX_READY_ATTEMPTS,
    ensures
        answered ==> r == ReadyStep::Ready,
        !answered && attempt + 1 < MAX_READY_ATTEMPTS ==> r == ReadyStep::Retry,
        !answered && attempt + 1 == MAX_READY_ATTEMPTS ==> r == ReadyStep::GiveUp,
{
    if answered {
        ReadyStep::Ready
    } else if attempt + 1 < MAX_READY_ATTEMPTS {
        ReadyStep::Retry
    } else {
        ReadyStep::GiveUp
    }
}

/// The error of a start whose readiness probes all failed.
pub fn readiness_timeout() -> (r: Error)
    ensures
        r matches Error::DownloadFailed(d) && d@ == "OpenCode failed to start within timeout"@,
{
    Error::DownloadFailed(String::from_str("OpenCode failed to start within timeout"))
}

/// The command-line arguments of the sidecar: it serves on `port`, and
/// accepts requests from `cors_origin` when one is given.
pub fn spawn_args(port: u16, cors_origin: Option<&str>) -> (r: Vec<String>)
    ensures
        r@.map_values(|a: String| a@) == match cors_origin {
            Some(c) => seq!["serve"@, "--port"@, decimal_of(port as nat), "--cors"@, c@],
            None => seq!["serve"@, "--port"@, decimal_of(port as nat)],
        },
{
    let mut r: Vec<String> = Vec::new();
    r.push(String::from_str("serve"));
    r.push(String::from_str("--port"));
    r.push(u16_text(port));
    match cors_origin {
        Some(c) => {
            r.push(String::from_str("--cors"));
            r.push(String::from_str(c));
        },
        None => {},
    }
    assert(r@.map_values(|a: String| a@) =~= match cors_origin {
        Some(c) => seq!["serve"@, "--port"@, decimal_of(port as nat), "--cors"@, c@],
        None => seq!["serve"@, "--port"@, decimal_of(port as nat)],
    });
    r
}

/// The environment flags of the sidecar: it names its client, and shares,
/// updates and downloads language servers on its own never.
pub fn spawn_env_flags() -> (r: Vec<(String, String)>)
    ensures
        r@.map_values(|p: (String, String)| (p.0@, p.1@)) == seq![
            ("OPENCODE_CLIENT"@, "wordforge-desktop"@),
            ("OPENCODE_AUTO_SHARE"@, "false"@),
            ("OPENCODE_DISABLE_AUTOUPDATE"@, "true"@),
            ("OPENCODE_DISABLE_LSP_DOWNLOAD"@, "true"@),
            ("OPENCODE_FAKE_VCS"@, "git"@),
        ],
{
    let mut r: Vec<(String, String)> = Vec::new();
    r.push((String::from_str("OPENCODE_CLIENT"), String::from_str("wordforge-desktop")));
    r.push((String::from_str("OPENCODE_AUTO_SHARE"), String::from_str("false")));
    r.push((String::from_str("OPENCODE_DISABLE_AUTOUPDATE"), String::from_str("true")));
    r.push((String::from_str("OPENCODE_DISABLE_LSP_DOWNLOAD"), String::from_str("true")));
    r.push((String::from_str("OPENCODE_FAKE_VCS"), String::from_str("git")));
    assert(r@.map_values(|p: (String, String)| (p.0@, p.1@)) =~= seq![
        ("OPENCODE_CLIENT"@, "wordforge-desktop"@),
        ("OPENCODE_AUTO_SHARE"@, "false"@),
        ("OPENCODE_DISABLE_AUTOUPDATE"@, "true"@),
        ("OPENCODE_DISABLE_LSP_DOWNLOAD"@, "true"@),
        ("OPENCODE_FAKE_VCS"@, "git"@),
    ]);
    r
}

/// Relies on `portpicker::is_free`: whether the port could be bound on TCP
/// and UDP when it was tried. That depends on the machine, so nothing is
/// promised of it.
#[verifier::external_body]
fn port_is_free(port: u16) -> (r: bool) {
    portpicker::is_free(port)
}

/// Relies on `portpicker::pick_unused_port`: a port that was free when it was
/// tried, or none. That depends on the machine, so nothing is promised of it.
#[verifier::external_body]
fn pick_unused_port() -> (r: Option<u16>) {
    portpicker::pick_unused_port()
}

/// The port to serve on, and whether it must be written down for the next
/// start.
#[derive(Debug, Clone, Copy, PartialEq, Eq)]
pub struct PortChoice {
    pub port: u16,
    pub persist: bool,
}

/// The port kept from an earlier run, read from the text of the port marker.
pub open spec fn saved_port(marker: Option<Seq<char>>) -> Option<u16> {
    match marker {
        Some(text) => parse_u16_spec(trimmed(text)),
        None => None,
    }
}

/// The rule of port resolution, given what the probes found: the saved port
/// when it is free, kept as it is; else a fresh one, to be written down; else
/// `NoAvailablePort`.
pub open spec fn port_resolution(saved: Option<u16>, saved_free: bool, fresh: Option<u16>) -> Result<PortChoice, Error> {
    match saved {
        Some(p) if saved_free => Ok(PortChoice { port: p, persist: false }),
        _ => match fresh {
            Some(f) => Ok(PortChoice { port: f, persist: true }),
            None => Err(Error::NoAvailablePort),
        },
    }
}

/// Port resolution from the probes' results: see `port_resolution`.
pub fn resolve_port(saved: Option<u16>, saved_free: bool, fresh: Option<u16>) -> (r: Result<PortChoice, Error>)
    ensures
        r == port_resolution(saved, saved_free, fresh),
{
    match saved {
        Some(p) => {
            if saved_free {
                return Ok(PortChoice { port: p, persist: false });
            }
        },
        None => {},
    }
    match fresh {
        Some(f) => Ok(PortChoice { port: f, persist: true }),
        None => Err(Error::NoAvailablePort),
    }
}

/// The port for the next start, from the text of the port marker if there is
/// one: the saved port where it is free now, else an unused one that must be
/// written down, else `NoAvailablePort`.
pub fn get_or_assign_port(marker: Option<&str>) -> (r: Result<PortChoice, Error>)
    ensures
        ({
            let saved = saved_port(
                match marker {
                    Some(t) => Some(t@),
                    None => None,
                },
            );
            match r {
                Ok(c) => (!c.persist ==> saved == Some(c.port)) && (saved is None ==> c.persist),
                Err(e) => e == Error::NoAvailablePort,
            }
        }),
{
    let saved = match marker {
        Some(text) => {
            let t = trim(text);
            parse_u16(t.as_str())
        },
        None => None,
    };
    let saved_free = match saved {
        Some(p) => port_is_free(p),
        None => false,
    };
    let fresh = if saved.is_some() && saved_free {
        None
    } else {
        pick_unused_port()
    };
    resolve_port(saved, saved_free, fresh)
}

/// A saved port that is free is reused exactly and not written again; one
/// that is taken, or none at all, gives way to a freshly picked port, which
/// is written down.
pub proof fn lemma_port_resolution(saved: Option<u16>, saved_free: bool, fresh: Option<u16>)
    ensures
        saved is Some && saved_free ==> port_resolution(saved, saved_free, fresh)
            == Ok::<PortChoice, Error>(PortChoice { port: saved->0, persist: false }),
        !(saved is Some && saved_free) && fresh is Some ==> port_resolution(saved, saved_free, fresh)
            == Ok::<PortChoice, Error>(PortChoice { port: fresh->0, persist: true }),
        !(saved is Some && saved_free) && fresh is None ==> port_resolution(saved, saved_free, fresh)
            == Err::<PortChoice, Error>(Error::NoAvailablePort),
{
}

/// The supervisor of the sidecar process. `P` is the handle of the running
/// child, owned here and by nothing else.
pub struct OpenCodeManager<P> {
    pub process: Option<P>,
    pub port: Option<u16>,
    pub install_dir: String,
}

/// Whether a start may go ahead: not while a process is held, and not before
/// the sidecar is installed.
pub open spec fn start_gate(running: bool, installed: bool) -> Result<(), Error> {
    if running {
        Err(Error::AlreadyRunning)
    } else if !installed {
        Err(Error::NotInstalled)
    } else {
        Ok(())
    }
}

impl<P> OpenCodeManager<P> {
    /// A supervisor with nothing running, installing into `install_dir`.
    pub fn new(install_dir: String) -> (r: Self)
        ensures
            r.process is None,
            r.port is None,
            r.install_dir == install_dir,
    {
        OpenCodeManager { process: None, port: None, install_dir }
    }

    /// `NotInstalled` where the binary is absent, `Running` while a process
    /// and its port are held, `Stopped` otherwise.
    pub fn get_status(&self, installed: bool) -> (r: Status)
        ensures
            r == if !installed {
                Status::NotInstalled
            } else if self.process is Some && self.port is Some {
                Status::Running
            } else {
                Status::Stopped
            },
    {
        if !installed {
            Status::NotInstalled
        } else if self.process.is_some() && self.port.is_some() {
            Status::Running
        } else {
            Status::Stopped
        }
    }

    /// The port of the running sidecar.
    pub fn get_port(&self) -> (r: Option<u16>)
        ensures
            r == self.port,
    {
        self.port
    }

    /// Whether a start may go ahead now; it changes nothing.
    pub fn check_start(&self, installed: bool) -> (r: Result<(), Error>)
        ensures
            r == start_gate(self.process is Some, installed),
    {
        if self.process.is_some() {
            Err(Error::AlreadyRunning)
        } else if !installed {
            Err(Error::NotInstalled)
        } else {
            Ok(())
        }
    }

    /// Takes charge of a freshly spawned process serving on `port`.
    pub fn attach(&mut self, process: P, port: u16)
        requires
            old(self).process is None,
        ensures
            final(self).process == Some(process),
            final(self).port == Some(port),
            final(self).install_dir == old(self).install_dir,
    {
        self.process = Some(process);
        self.port = Some(port);
    }

    /// Gives up the running process, for the caller to terminate, and clears
    /// the port. With nothing running it changes nothing and succeeds.
    pub fn stop(&mut self) -> (r: Option<P>)
        ensures
            r == old(self).process,
            final(self).process is None,
            final(self).install_dir == old(self).install_dir,
            old(self).process is Some ==> final(self).port is None,
            old(self).process is None ==> *final(self) == *old(self),
    {
        match self.process.take() {
            Some(p) => {
                self.port = None;
                Some(p)
            },
            None => None,
        }
    }
}

/// A start asked for while a process is held fails with `AlreadyRunning`
/// (and, the check taking a shared borrow, leaves process and port as they
/// were); otherwise it fails with `NotInstalled` exactly when the sidecar is
/// not installed.
pub proof fn lemma_start_gate<P>(m: OpenCodeManager<P>, installed: bool)
    ensures
        m.process is Some ==> start_gate(m.process is Some, installed) == Err::<(), Error>(
            Error::AlreadyRunning,
        ),
        m.process is None && installed ==> start_gate(m.process is Some, installed) is Ok,
        m.process is None && !installed ==> start_gate(m.process is Some, installed) == Err::<
            (),
            Error,
        >(Error::NotInstalled),
{
}

} // verus!
