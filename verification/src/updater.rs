//! Versions of the program and what to fetch to bring it up to date.

use crate::text::{
    chars_of, compare_numbers, lex_sign, numbers_of, parse_numbers, same, split_on, strip_leading,
    without_leading,
};
use std::cmp::Ordering;
use vstd::prelude::*;

verus! {

/// The numbers of a version, if `version` is numbers joined by dots.
pub open spec fn version_numbers(version: Seq<char>) -> Option<Seq<u32>> {
    numbers_of(split_on(version, '.'))
}

/// How version `a` stands to version `b`, if both are numbers joined by
/// dots: the versions are compared number by number from the front, and a
/// version that ends first stands before one that goes on.
pub open spec fn version_order(a: Seq<char>, b: Seq<char>) -> Option<Ordering> {
    match (version_numbers(a), version_numbers(b)) {
        (Some(x), Some(y)) => Some(
            if lex_sign(x, y) < 0 {
                Ordering::Less
            } else if lex_sign(x, y) > 0 {
                Ordering::Greater
            } else {
                Ordering::Equal
            },
        ),
        _ => None,
    }
}

/// Compares two versions written as numbers joined by dots, such as
/// `0.1.12`. Where either is not written so, there is no answer.
pub fn compare_versions(a: &str, b: &str) -> (r: Option<Ordering>)
    ensures
        r == version_order(a@, b@),
{
    let x = chars_of(a);
    let y = chars_of(b);
    assert(x@.skip(0) =~= a@ && y@.skip(0) =~= b@);
    match (parse_numbers(&x, 0, '.'), parse_numbers(&y, 0, '.')) {
        (Some(p), Some(q)) => {
            assert(p.deep_view() =~= p@ && q.deep_view() =~= q@);
            let sign = compare_numbers(&p, &q);
            if sign < 0 {
                Some(Ordering::Less)
            } else if sign > 0 {
                Some(Ordering::Greater)
            } else {
                Some(Ordering::Equal)
            }
        },
        _ => None,
    }
}

/// The version of the program.
pub const CURRENT_VERSION: &'static str = "0.1.0";

/// Where the releases of the program are published.
pub const GITHUB_REPO: &'static str = "vu1n/bacchus";

/// Where the latest release is described.
pub const LATEST_RELEASE_URL: &'static str =
    "https://api.github.com/repos/vu1n/bacchus/releases/latest";

/// What is known of the latest release, against the version that runs.
#[derive(Debug, PartialEq, Eq)]
pub struct UpdateInfo {
    pub current_version: String,
    pub latest_version: String,
    pub update_available: bool,
    pub release_url: String,
    pub release_notes: Option<String>,
}

/// What an [`UpdateInfo`] holds, as mathematical values.
pub struct UpdateInfoView {
    pub current_version: Seq<char>,
    pub latest_version: Seq<char>,
    pub update_available: bool,
    pub release_url: Seq<char>,
    pub release_notes: Option<Seq<char>>,
}

impl View for UpdateInfo {
    type V = UpdateInfoView;

    open spec fn view(&self) -> UpdateInfoView {
        UpdateInfoView {
            current_version: self.current_version@,
            latest_version: self.latest_version@,
            update_available: self.update_available,
            release_url: self.release_url@,
            release_notes: self.release_notes.deep_view(),
        }
    }
}

/// Why the program could not be brought up to date.
#[derive(Debug, PartialEq, Eq)]
pub enum UpdateError {
    HttpError(String),
    JsonError(String),
    IoError(String),
    /// No binary is published for this system and this architecture.
    BinaryNotFound(String, String),
    /// The version that runs is the latest.
    AlreadyLatest(String),
}

/// The message of an error.
pub open spec fn error_message(error: UpdateError) -> Seq<char> {
    match error {
        UpdateError::HttpError(m) => "HTTP request failed: "@ + m@,
        UpdateError::JsonError(m) => "Failed to parse JSON: "@ + m@,
        UpdateError::IoError(m) => "IO error: "@ + m@,
        UpdateError::BinaryNotFound(os, arch) => "No binary found for platform "@ + os@ + "-"@
            + arch@,
        UpdateError::AlreadyLatest(v) => "Already on latest version: "@ + v@,
    }
}

impl UpdateError {
    /// The message of the error.
    pub fn message(&self) -> (text: String)
        ensures
            text@ == error_message(*self),
    {
        match self {
            UpdateError::HttpError(m) => String::from_str("HTTP request failed: ").concat(
                m.as_str(),
            ),
            UpdateError::JsonError(m) => String::from_str("Failed to parse JSON: ").concat(
                m.as_str(),
            ),
            UpdateError::IoError(m) => String::from_str("IO error: ").concat(m.as_str()),
            UpdateError::BinaryNotFound(os, arch) => String::from_str(
                "No binary found for platform ",
            ).concat(os.as_str()).concat("-").concat(arch.as_str()),
            UpdateError::AlreadyLatest(v) => String::from_str(
                "Already on latest version: ",
            ).concat(v.as_str()),
        }
    }
}

/// Whether the version `latest` calls for an update of the version
/// `current`: it does, unless `current` is known to be the same or newer.
pub open spec fn update_called_for(current: Seq<char>, latest: Seq<char>) -> bool {
    match version_order(current, latest) {
        Some(Ordering::Equal) => false,
        Some(Ordering::Greater) => false,
        _ => true,
    }
}

/// What is known of the release with the tag `tag_name`, for a program of
/// the version `current_version`. The version of the release is its tag
/// without the letters `v` at its start.
pub fn update_info(
    current_version: &str,
    tag_name: &str,
    release_url: String,
    release_notes: Option<String>,
) -> (info: UpdateInfo)
    ensures
        info@ == (UpdateInfoView {
            current_version: current_version@,
            latest_version: without_leading(tag_name@, 'v'),
            update_available: update_called_for(current_version@, without_leading(tag_name@, 'v')),
            release_url: release_url@,
            release_notes: release_notes.deep_view(),
        }),
{
    let latest_version = strip_leading(tag_name, 'v');
    let update_available = match compare_versions(current_version, latest_version.as_str()) {
        Some(Ordering::Equal) => false,
        Some(Ordering::Greater) => false,
        _ => true,
    };
    UpdateInfo {
        current_version: current_version.to_string(),
        latest_version,
        update_available,
        release_url,
        release_notes,
    }
}

/// The name under which binaries are published for the operating system
/// `os`: `darwin` for `macos`, else the system's own name.
pub open spec fn os_name(os: Seq<char>) -> Seq<char> {
    if os == "macos"@ {
        "darwin"@
    } else {
        os
    }
}

/// The name under which binaries are published for the architecture
/// `arch`: `aarch64` for `arm`, else the architecture's own name.
pub open spec fn arch_name(arch: Seq<char>) -> Seq<char> {
    if arch == "arm"@ {
        "aarch64"@
    } else {
        arch
    }
}

/// The names under which binaries are published for the operating system
/// `os` and the architecture `arch`.
pub fn detect_platform(os: &str, arch: &str) -> (names: (String, String))
    ensures
        names.0@ == os_name(os@),
        names.1@ == arch_name(arch@),
{
    let os_name = if same(os, "macos") {
        "darwin"
    } else {
        os
    };
    let arch_name = if same(arch, "arm") {
        "aarch64"
    } else {
        arch
    };
    (os_name.to_string(), arch_name.to_string())
}

/// Where the binary of the version `version` is published for a platform.
pub open spec fn download_url(version: Seq<char>, os: Seq<char>, arch: Seq<char>) -> Seq<char> {
    "https://github.com/vu1n/bacchus/releases/download/v"@ + version + "/bacchus-"@ + os_name(os)
        + "-"@ + arch_name(arch)
}

/// What an update has to fetch: the address of the binary of the latest
/// version for this platform. Where the version that runs is the latest,
/// there is nothing to fetch and the result is `AlreadyLatest`.
pub fn self_update(info: &UpdateInfo, os: &str, arch: &str) -> (r: Result<String, UpdateError>)
    ensures
        match r {
            Ok(url) => info.update_available && url@ == download_url(
                info.latest_version@,
                os@,
                arch@,
            ),
            Err(e) => !info.update_available && e == UpdateError::AlreadyLatest(
                info.current_version,
            ),
        },
{
    if !info.update_available {
        return Err(UpdateError::AlreadyLatest(info.current_version.clone()));
    }
    let names = detect_platform(os, arch);
    let mut url = String::from_str("https://github.com/vu1n/bacchus/releases/download/v");
    url.append(info.latest_version.as_str());
    url.append("/bacchus-");
    url.append(names.0.as_str());
    url.append("-");
    url.append(names.1.as_str());
    Ok(url)
}

} // verus!
