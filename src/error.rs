//! Failures of the binary operations, and the text shown for each.

use vstd::prelude::*;
use crate::text::{decimal, decimal_text};

verus! {

/// A failure while locating, fetching, storing or checking a managed binary.
#[derive(Debug, Clone, PartialEq, Eq)]
pub enum BinaryError {
    /// The running system is not one of the supported targets.
    UnsupportedPlatform { os: String, arch: String },
    /// The download of the binary `name` answered with a status outside 200..=299.
    DownloadFailed { name: String, status: u16 },
    /// The download of the binary `name` did not complete; `cause` says why.
    TransferFailed { name: String, cause: String },
    /// A file system step of storing the binary `name` failed; `operation` says
    /// which one.
    IoFailure { name: String, operation: String },
    /// The installed binary did not run or did not report success.
    VerificationFailed { name: String },
    /// No registered binary has this display name.
    UnknownProvider { name: String },
    /// No file stands at `path`, where the binary `name` is expected.
    NotFound { name: String, path: String },
    /// The file at `path` of the binary `name` may not be executed.
    NotExecutable { name: String, path: String },
}

/// The text shown for an unsupported platform.
pub open spec fn unsupported_message(os: Seq<char>, arch: Seq<char>) -> Seq<char> {
    "Unsupported system: "@ + os + " "@ + arch
}

/// Whether `e` refuses the platform named by `os` and `arch`.
pub open spec fn is_unsupported(e: BinaryError, os: Seq<char>, arch: Seq<char>) -> bool {
    match e {
        BinaryError::UnsupportedPlatform { os: o, arch: a } => o@ == os && a@ == arch,
        _ => false,
    }
}

/// The text shown for each failure.
pub open spec fn error_message(e: BinaryError) -> Seq<char> {
    match e {
        BinaryError::UnsupportedPlatform { os, arch } => unsupported_message(os@, arch@),
        BinaryError::DownloadFailed { name, status } => "Failed to download "@ + name@ + " binary: HTTP "@
            + decimal(status as nat),
        BinaryError::TransferFailed { name, cause } => "Failed to download "@ + name@ + " binary: "@ + cause@,
        BinaryError::IoFailure { name, operation } => "Failed to store "@ + name@ + " binary: "@ + operation@
            + " failed"@,
        BinaryError::VerificationFailed { name } => "Could not determine "@ + name@ + " version"@,
        BinaryError::UnknownProvider { name } => "Unknown binary provider: "@ + name@,
        BinaryError::NotFound { name, path } => name@ + " binary does not exist at: "@ + path@,
        BinaryError::NotExecutable { name, path } => name@ + " binary is not executable: "@ + path@,
    }
}

impl BinaryError {
    /// The text shown for this failure.
    pub fn message(&self) -> (r: String)
        ensures
            r@ == error_message(*self),
    {
        match self {
            BinaryError::UnsupportedPlatform { os, arch } => {
                let mut r = String::from_str("Unsupported system: ");
                r.append(os.as_str());
                r.append(" ");
                r.append(arch.as_str());
                r
            },
            BinaryError::DownloadFailed { name, status } => {
                let mut r = String::from_str("Failed to download ");
                r.append(name.as_str());
                r.append(" binary: HTTP ");
                let d = decimal_text(*status as u128);
                r.append(d.as_str());
                r
            },
            BinaryError::TransferFailed { name, cause } => {
                let mut r = String::from_str("Failed to download ");
                r.append(name.as_str());
                r.append(" binary: ");
                r.append(cause.as_str());
                r
            },
            BinaryError::IoFailure { name, operation } => {
                let mut r = String::from_str("Failed to store ");
                r.append(name.as_str());
                r.append(" binary: ");
                r.append(operation.as_str());
                r.append(" failed");
                r
            },
            BinaryError::VerificationFailed { name } => {
                let mut r = String::from_str("Could not determine ");
                r.append(name.as_str());
                r.append(" version");
                r
            },
            BinaryError::UnknownProvider { name } => {
                let mut r = String::from_str("Unknown binary provider: ");
                r.append(name.as_str());
                r
            },
            BinaryError::NotFound { name, path } => {
                let mut r = name.clone();
                r.append(" binary does not exist at: ");
                r.append(path.as_str());
                r
            },
            BinaryError::NotExecutable { name, path } => {
                let mut r = name.clone();
                r.append(" binary is not executable: ");
                r.append(path.as_str());
                r
            },
        }
    }
}

} // verus!
