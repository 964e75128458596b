use vstd::prelude::*;
use crate::text::{decimal, decimal_string};

verus! {

/// What the check for a new version of the app found.
#[derive(Debug)]
pub enum UpdateCheck {
    /// A newer version can be installed.
    Available { current_version: String, version: String },
    /// The app is up to date.
    UpToDate,
    /// The check failed with this error.
    Failed(String),
}

/// A line to print about the app's update, and whether the new version is to be
/// downloaded and installed next.
#[derive(Debug)]
pub struct UpdateNotice {
    pub line: String,
    pub to_stderr: bool,
    pub install: bool,
}

/// The notice for a check result: an available update is announced with both
/// versions and installed, a missing one is said so, and a failure goes to
/// standard error.
pub open spec fn notice_matches(check: UpdateCheck, n: UpdateNotice) -> bool {
    match check {
        UpdateCheck::Available { current_version, version } => n.line@ == "Update available: "@
            + current_version@ + " -> "@ + version@ && !n.to_stderr && n.install,
        UpdateCheck::UpToDate => n.line@ == "No update available"@ && !n.to_stderr && !n.install,
        UpdateCheck::Failed(e) => n.line@ == "Failed to check for updates: "@ + e@ && n.to_stderr && !n.install,
    }
}

/// Decides what to say and do about the result of an update check.
pub fn update_notice(check: UpdateCheck) -> (n: UpdateNotice)
    ensures
        notice_matches(check, n),
{
    match check {
        UpdateCheck::Available { current_version, version } => {
            let line = String::from_str("Update available: ").concat(current_version.as_str()).concat(" -> ").concat(
                version.as_str(),
            );
            UpdateNotice { line, to_stderr: false, install: true }
        },
        UpdateCheck::UpToDate => UpdateNotice { line: String::from_str("No update available"), to_stderr: false, install: false },
        UpdateCheck::Failed(e) => {
            let line = String::from_str("Failed to check for updates: ").concat(e.as_str());
            UpdateNotice { line, to_stderr: true, install: false }
        },
    }
}

/// The debug notation of an optional byte count: `Some(<n>)` or `None`.
pub open spec fn optional_count(n: Option<u64>) -> Seq<char> {
    match n {
        Some(k) => "Some("@ + decimal(k as nat) + ")"@,
        None => "None"@,
    }
}

/// The line printed for each downloaded chunk of the update.
pub fn download_progress_line(chunk_length: usize, content_length: Option<u64>) -> (line: String)
    ensures
        line@ == "Downloaded "@ + decimal(chunk_length as nat) + " of "@ + optional_count(content_length) + " bytes"@,
{
    let chunk = decimal_string(chunk_length as u64);
    let total = match content_length {
        Some(k) => String::from_str("Some(").concat(decimal_string(k).as_str()).concat(")"),
        None => String::from_str("None"),
    };
    String::from_str("Downloaded ").concat(chunk.as_str()).concat(" of ").concat(total.as_str()).concat(" bytes")
}

/// The line printed when the download is over.
pub fn download_finished_line() -> (line: String)
    ensures
        line@ == "Download finished"@,
{
    String::from_str("Download finished")
}

/// The line printed to standard error when the update could not be installed.
pub fn install_failed_line(detail: &str) -> (line: String)
    ensures
        line@ == "Failed to download and install update: "@ + detail@,
{
    String::from_str("Failed to download and install update: ").concat(detail)
}

} // verus!
