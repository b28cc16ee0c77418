//! The decisions of installing one binary (check, fetch, store, verify) and of
//! installing every registered binary in turn. The caller performs each action
//! and hands back what came of it.

use vstd::prelude::*;
use crate::error::{BinaryError, is_unsupported};
use crate::manager::{FileStat, shown_version, stat_executable, version_from_output};
use crate::provider::{BinaryInfoProvider, args_view};
use crate::target::{SystemTarget, target_of};

verus! {

/// The permission bits given to a freshly written binary: everyone may read and
/// execute it, only the owner may write it.
pub const INSTALLED_MODE: u32 = 0o755;

/// What the caller does next while installing one binary.
pub enum InstallAction {
    /// The binary is present and executable: nothing is fetched.
    UseExisting,
    /// Fetch the release for `target` from `url`.
    Fetch { target: SystemTarget, url: String },
    /// Write the bytes received to the binary's path, creating its directory, then
    /// give it `INSTALLED_MODE`.
    Store,
    /// Run the installed binary with `args` to read its version.
    Probe { args: Vec<&'static str> },
    /// The binary stands at its path; `verified` is what the version probe found,
    /// a failure there being only a warning.
    Finish { verified: Result<String, BinaryError> },
    /// The install failed.
    Fail { error: BinaryError },
}

/// Whether the file described by `stat` exists and may be executed.
pub open spec fn stat_ready(stat: Option<FileStat>) -> bool {
    stat.is_some() && stat_executable(stat)
}

/// Whether `r` is the first step of installing `provider`'s binary, whose path the
/// file system described by `stat`, on the system named by `os` and `arch`.
pub open spec fn planned<P: BinaryInfoProvider>(
    r: InstallAction,
    provider: P,
    stat: Option<FileStat>,
    force_download: bool,
    os: Seq<char>,
    arch: Seq<char>,
) -> bool {
    if !force_download && stat_ready(stat) {
        r is UseExisting
    } else {
        match target_of(os, arch) {
            Some(t) => r matches InstallAction::Fetch { target, url } && target == t && url@
                == provider.spec_download_url(t),
            None => r matches InstallAction::Fail { error } && is_unsupported(error, os, arch),
        }
    }
}

/// The first step of installing `provider`'s binary: keep a ready one unless
/// `force_download`, else fetch the release for the running system.
pub fn plan_install<P: BinaryInfoProvider>(
    provider: &P,
    stat: &Option<FileStat>,
    force_download: bool,
    os: &str,
    arch: &str,
) -> (r: InstallAction)
    ensures
        planned(r, *provider, *stat, force_download, os@, arch@),
{
    if !force_download && stat.is_some() && crate::manager::is_executable(stat) {
        return InstallAction::UseExisting;
    }
    match SystemTarget::detect(os, arch) {
        Ok(t) => InstallAction::Fetch { target: t, url: provider.get_download_url(&t) },
        Err(error) => InstallAction::Fail { error },
    }
}

/// Whether an HTTP status reports success.
pub open spec fn success_status(status: u16) -> bool {
    200 <= status && status <= 299
}

/// Whether an HTTP status reports success.
pub fn is_success_status(status: u16) -> (r: bool)
    ensures
        r == success_status(status),
{
    200 <= status && status <= 299
}

/// The step after the download of `provider`'s binary answered with `status`:
/// store the body on success, else fail with the binary's name and that status,
/// and write nothing.
pub fn after_download<P: BinaryInfoProvider>(provider: &P, status: u16) -> (r: InstallAction)
    ensures
        success_status(status) ==> r is Store,
        !success_status(status) ==> (r matches InstallAction::Fail {
            error: BinaryError::DownloadFailed { name, status: s },
        } && name@ == provider.spec_name() && s == status),
{
    if is_success_status(status) {
        InstallAction::Store
    } else {
        InstallAction::Fail {
            error: BinaryError::DownloadFailed { name: String::from_str(provider.name()), status },
        }
    }
}

/// The step after the download of `provider`'s binary broke off for `cause`.
pub fn after_transfer_error<P: BinaryInfoProvider>(provider: &P, cause: String) -> (r: InstallAction)
    ensures
        r matches InstallAction::Fail { error: BinaryError::TransferFailed { name, cause: c } } && name@
            == provider.spec_name() && c == cause,
{
    InstallAction::Fail { error: BinaryError::TransferFailed { name: String::from_str(provider.name()), cause } }
}

/// The step after storing `provider`'s binary: `failed_operation` names the file
/// system step that failed, if one did.
pub fn after_store<P: BinaryInfoProvider>(provider: &P, failed_operation: Option<String>) -> (r: InstallAction)
    ensures
        failed_operation is None ==> (r matches InstallAction::Probe { args } && args_view(args@)
            == provider.spec_version_args()),
        failed_operation matches Some(op) ==> (r matches InstallAction::Fail {
            error: BinaryError::IoFailure { name, operation },
        } && name@ == provider.spec_name() && operation == op),
{
    match failed_operation {
        None => InstallAction::Probe { args: provider.version_args() },
        Some(operation) => InstallAction::Fail {
            error: BinaryError::IoFailure { name: String::from_str(provider.name()), operation },
        },
    }
}

/// The last step, after the version probe: `succeeded` tells whether the binary ran
/// and exited with success, `output` is what it printed. The binary stays
/// installed either way.
pub fn after_probe<P: BinaryInfoProvider>(provider: &P, succeeded: bool, output: &str) -> (r: InstallAction)
    ensures
        succeeded ==> (r matches InstallAction::Finish { verified: Ok(v) } && v@ == shown_version(
            *provider,
            output@,
        )),
        !succeeded ==> (r matches InstallAction::Finish {
            verified: Err(BinaryError::VerificationFailed { name }),
        } && name@ == provider.spec_name()),
{
    InstallAction::Finish { verified: version_from_output(provider, succeeded, output) }
}

/// A freshly installed binary is ready.
pub proof fn lemma_installed_is_ready(len: u64)
    ensures
        stat_ready(Some(FileStat { mode: INSTALLED_MODE, len })),
{
    assert(0o755u32 & 0o111u32 != 0) by (bit_vector);
}

/// Installing again a binary that is present and executable, as one is right after
/// it was installed, fetches nothing.
pub proof fn lemma_install_idempotent<P: BinaryInfoProvider>(
    r: InstallAction,
    provider: P,
    len: u64,
    os: Seq<char>,
    arch: Seq<char>,
)
    requires
        planned(r, provider, Some(FileStat { mode: INSTALLED_MODE, len }), false, os, arch),
    ensures
        r is UseExisting,
        !(r is Fetch),
{
    lemma_installed_is_ready(len);
}

/// How far a download has come, for a progress display.
pub struct DownloadProgress {
    /// The size that the response declared, if it declared one.
    pub total: Option<u64>,
    /// The bytes received so far.
    pub received: u64,
}

impl DownloadProgress {
    /// A download that has received nothing yet, of the declared size `total`.
    pub fn new(total: Option<u64>) -> (r: Self)
        ensures
            r.total == total,
            r.received == 0,
    {
        DownloadProgress { total, received: 0 }
    }

    /// Whether the display can show how much is left.
    pub fn is_determinate(&self) -> (r: bool)
        ensures
            r == self.total.is_some(),
    {
        self.total.is_some()
    }

    /// Counts a chunk of `chunk_len` bytes more; the count stops at the largest
    /// value it can hold.
    pub fn advance(&mut self, chunk_len: usize)
        ensures
            final(self).total == old(self).total,
            final(self).received == if old(self).received + chunk_len <= u64::MAX {
                (old(self).received + chunk_len) as u64
            } else {
                u64::MAX
            },
    {
        let len = chunk_len as u64;
        if chunk_len as u128 > u64::MAX as u128 || self.received > u64::MAX - len {
            self.received = u64::MAX;
        } else {
            self.received = self.received + len;
        }
    }
}

/// The results of installing the registered binaries one after another; the
/// first failure ends the batch.
pub struct InstallBatch {
    /// The path of each binary installed so far, in order.
    pub installed: Vec<String>,
    /// How many of them were not present before.
    pub newly_installed: usize,
    /// The failure that ended the batch.
    pub failure: Option<BinaryError>,
}

impl InstallBatch {
    /// The count of new binaries is within the count of installed ones.
    pub open spec fn wf(&self) -> bool {
        self.newly_installed <= self.installed@.len()
    }

    /// A batch in which nothing was installed yet.
    pub fn new() -> (r: Self)
        ensures
            r.installed@.len() == 0,
            r.newly_installed == 0,
            r.failure is None,
            r.wf(),
    {
        InstallBatch { installed: Vec::new(), newly_installed: 0, failure: None }
    }

    /// Records the result of installing the next binary, whose file existed before
    /// if `was_present`; tells whether the batch goes on.
    pub fn record(&mut self, outcome: Result<String, BinaryError>, was_present: bool) -> (go_on: bool)
        requires
            old(self).failure is None,
            old(self).wf(),
            old(self).installed@.len() < usize::MAX,
        ensures
            final(self).wf(),
            go_on == outcome is Ok,
            match outcome {
                Ok(path) => {
                    &&& final(self).installed@ == old(self).installed@.push(path)
                    &&& final(self).newly_installed == old(self).newly_installed + (if was_present {
                        0int
                    } else {
                        1int
                    })
                    &&& final(self).failure is None
                },
                Err(e) => {
                    &&& final(self).installed@ == old(self).installed@
                    &&& final(self).newly_installed == old(self).newly_installed
                    &&& final(self).failure == Some(e)
                },
            },
    {
        match outcome {
            Ok(path) => {
                self.installed.push(path);
                if !was_present {
                    self.newly_installed = self.newly_installed + 1;
                }
                true
            },
            Err(e) => {
                self.failure = Some(e);
                false
            },
        }
    }

    /// The paths of the installed binaries, or the failure that ended the batch.
    pub fn finish(self) -> (r: Result<Vec<String>, BinaryError>)
        ensures
            match self.failure {
                Some(e) => r == Err::<Vec<String>, BinaryError>(e),
                None => r matches Ok(v) && v@ == self.installed@,
            },
    {
        match self.failure {
            Some(e) => Err(e),
            None => Ok(self.installed),
        }
    }
}

} // verus!
