//! Update checking: how the program was installed, comparing versions,
//! and deciding whether a cached check is still fresh.
use vstd::prelude::*;
use crate::note::Timestamp;
use crate::text::{chars_of, string_from_chars, starts_with};

verus! {

/// How the program was installed.
#[derive(Debug, Clone, Copy, PartialEq, Eq, Structural)]
pub enum InstallMethod {
    Cargo,
    Pacman,
    ManualBinary,
}

/// Result of the background update check.
pub enum UpdateStatus {
    /// A newer version exists.
    Available { current: String, latest: String, install_method: InstallMethod },
    /// Already on the latest (or a newer) version.
    UpToDate,
    /// The check failed; the text says why.
    Failed(String),
}

/// The update command or page for an installation method.
pub open spec fn hint_for(method: InstallMethod) -> Seq<char> {
    match method {
        InstallMethod::Cargo => "cargo install deez-notes"@,
        InstallMethod::Pacman => "yay -S deez-notes-bin"@,
        InstallMethod::ManualBinary => "https://github.com/BaLaurent/deez-notes/releases"@,
    }
}

impl UpdateStatus {
    /// The update command or URL for the installation method, when an
    /// update is available.
    pub fn update_hint(&self) -> (r: Option<&'static str>)
        ensures
            match self {
                UpdateStatus::Available { install_method, .. } => r matches Some(h) && h@ == hint_for(
                    *install_method,
                ),
                _ => r is None,
            },
    {
        match self {
            UpdateStatus::Available { install_method, .. } => Some(
                match install_method {
                    InstallMethod::Cargo => "cargo install deez-notes",
                    InstallMethod::Pacman => "yay -S deez-notes-bin",
                    InstallMethod::ManualBinary => "https://github.com/BaLaurent/deez-notes/releases",
                },
            ),
            _ => None,
        }
    }
}

/// A previously fetched latest version and when it was fetched.
pub struct CacheEntry {
    pub latest_version: String,
    pub checked_at: Timestamp,
}

/// Nanoseconds from `from` to `to`.
pub open spec fn nanos_between(from: Timestamp, to: Timestamp) -> int {
    (to.secs - from.secs) * 1_000_000_000 + (to.nanos - from.nanos)
}

/// Twenty-four hours, in nanoseconds.
pub open spec fn day_nanos() -> int {
    86_400_000_000_000
}

/// Whether a cache entry checked at `entry.checked_at` is younger than
/// twenty-four hours at time `now`.
pub fn is_cache_fresh(entry: &CacheEntry, now: Timestamp) -> (r: bool)
    ensures
        r == (nanos_between(entry.checked_at, now) < day_nanos()),
{
    let ds: i128 = now.secs as i128 - entry.checked_at.secs as i128;
    let dn: i128 = now.nanos as i128 - entry.checked_at.nanos as i128;
    assert(-0x1_0000_0000_0000_0000 < ds < 0x1_0000_0000_0000_0000);
    assert(ds * 1_000_000_000 < 0x1_0000_0000_0000_0000 * 1_000_000_000) by (nonlinear_arith)
        requires ds < 0x1_0000_0000_0000_0000;
    assert(ds * 1_000_000_000 > -0x1_0000_0000_0000_0000 * 1_000_000_000) by (nonlinear_arith)
        requires ds > -0x1_0000_0000_0000_0000;
    ds * 1_000_000_000 + dn < 86_400_000_000_000
}

/// Whether a version text is one `semver::Version::parse` accepts.
pub uninterp spec fn semver_valid(text: Seq<char>) -> bool;

/// Whether `latest` is a later version than `current` in semver's order
/// (major, minor, patch, then pre-release), for two valid version texts.
pub uninterp spec fn semver_newer(latest: Seq<char>, current: Seq<char>) -> bool;

/// `semver::Version::parse`: succeeds exactly on the texts named
/// `semver_valid`.
#[verifier::external_body]
fn version_valid(text: &str) -> (r: bool)
    ensures
        r == semver_valid(text@),
{
    semver::Version::parse(text).is_ok()
}

/// `>` on two parsed `semver::Version`s: the result is the one named
/// `semver_newer` for the two texts.
#[verifier::external_body]
fn version_is_newer(latest: &str, current: &str) -> (r: bool)
    requires
        semver_valid(latest@),
        semver_valid(current@),
    ensures
        r == semver_newer(latest@, current@),
{
    match (semver::Version::parse(latest), semver::Version::parse(current)) {
        (Ok(l), Ok(c)) => l > c,
        _ => false,
    }
}

/// The status for the given versions: a failure naming the first invalid
/// version, otherwise `Available` when `newer` holds, else `UpToDate`.
pub open spec fn status_is(
    r: UpdateStatus,
    current: Seq<char>,
    latest: Seq<char>,
    method: InstallMethod,
    current_ok: bool,
    latest_ok: bool,
    newer: bool,
) -> bool {
    if !current_ok {
        r matches UpdateStatus::Failed(m) && m@ == "invalid current version: "@ + current
    } else if !latest_ok {
        r matches UpdateStatus::Failed(m) && m@ == "invalid latest version: "@ + latest
    } else if newer {
        r matches UpdateStatus::Available { current: c, latest: l, install_method: im } && c@
            == current && l@ == latest && im == method
    } else {
        r is UpToDate
    }
}

/// Builds the update status from the outcome of parsing and comparing
/// the two versions.
pub fn status_from(
    current: &str,
    latest: &str,
    method: InstallMethod,
    current_ok: bool,
    latest_ok: bool,
    newer: bool,
) -> (r: UpdateStatus)
    ensures
        status_is(r, current@, latest@, method, current_ok, latest_ok, newer),
{
    if !current_ok {
        let mut m = String::from_str("invalid current version: ");
        m.append(current);
        return UpdateStatus::Failed(m);
    }
    if !latest_ok {
        let mut m = String::from_str("invalid latest version: ");
        m.append(latest);
        return UpdateStatus::Failed(m);
    }
    if newer {
        UpdateStatus::Available {
            current: String::from_str(current),
            latest: String::from_str(latest),
            install_method: method,
        }
    } else {
        UpdateStatus::UpToDate
    }
}

/// Compares the running version with the latest published one.
pub fn compare_versions(current: &str, latest: &str, method: InstallMethod) -> (r: UpdateStatus)
    ensures
        status_is(
            r,
            current@,
            latest@,
            method,
            semver_valid(current@),
            semver_valid(latest@),
            semver_newer(latest@, current@),
        ),
{
    let current_ok = version_valid(current);
    let latest_ok = version_valid(latest);
    let newer = if current_ok && latest_ok {
        version_is_newer(latest, current)
    } else {
        false
    };
    status_from(current, latest, method, current_ok, latest_ok, newer)
}

/// The status from a cached latest version, when the cache is still
/// fresh at `now`; `None` means the latest version must be fetched.
pub fn cached_status(current: &str, cache: Option<CacheEntry>, now: Timestamp, method: InstallMethod) -> (r: Option<UpdateStatus>)
    ensures
        match cache {
            Some(e) => if nanos_between(e.checked_at, now) < day_nanos() {
                r matches Some(s) && status_is(
                    s,
                    current@,
                    e.latest_version@,
                    method,
                    semver_valid(current@),
                    semver_valid(e.latest_version@),
                    semver_newer(e.latest_version@, current@),
                )
            } else {
                r is None
            },
            None => r is None,
        },
{
    match cache {
        Some(e) => {
            if is_cache_fresh(&e, now) {
                Some(compare_versions(current, e.latest_version.as_str(), method))
            } else {
                None
            }
        },
        None => None,
    }
}

/// A release tag with a leading `v` removed.
pub open spec fn version_of_tag(tag: Seq<char>) -> Seq<char> {
    if tag.len() > 0 && tag[0] == 'v' {
        tag.drop_first()
    } else {
        tag
    }
}

/// The version named by a release tag: the tag without its leading `v`.
pub fn version_from_tag(tag: &str) -> (r: String)
    ensures
        r@ == version_of_tag(tag@),
{
    let cs = chars_of(tag);
    if cs.len() > 0 && cs[0] == 'v' {
        string_from_chars(&cs, 1)
    } else {
        String::from_str(tag)
    }
}

/// Whether an executable path lies in a system binary directory that a
/// package manager may own.
pub fn is_system_binary(path: &str) -> (r: bool)
    ensures
        r == (path@.len() >= 9 && path@.take(9) == "/usr/bin/"@) || (path@.len() >= 15 && path@.take(15)
            == "/usr/local/bin/"@),
{
    proof {
        reveal_strlit("/usr/bin/");
        reveal_strlit("/usr/local/bin/");
    }
    starts_with(path, "/usr/bin/") || starts_with(path, "/usr/local/bin/")
}

/// The installation method, given whether the executable lies under
/// `~/.cargo/bin` and whether pacman owns it.
pub fn install_method_from(in_cargo_bin: bool, pacman_owned: bool) -> (r: InstallMethod)
    ensures
        r == (if in_cargo_bin {
            InstallMethod::Cargo
        } else if pacman_owned {
            InstallMethod::Pacman
        } else {
            InstallMethod::ManualBinary
        }),
{
    if in_cargo_bin {
        InstallMethod::Cargo
    } else if pacman_owned {
        InstallMethod::Pacman
    } else {
        InstallMethod::ManualBinary
    }
}

} // verus!
