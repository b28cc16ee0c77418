//! The storage bridge binary.

use vstd::prelude::*;
use crate::provider::{BinaryInfoProvider, args_view, opt_view};
use crate::target::SystemTarget;
use crate::text::is_ws_char;

verus! {

/// Describes the storage bridge binary.
#[derive(Debug, Clone, Copy, PartialEq, Eq, Structural)]
pub struct S3fsProvider;

/// The release asset for `target`.
pub open spec fn s3fs_asset(target: SystemTarget) -> Seq<char> {
    match target {
        SystemTarget::MacOsAarch64 => "s3fs_aarch64-apple-darwin"@,
        SystemTarget::MacOsX86_64 => "s3fs_x86_64-apple-darwin"@,
        SystemTarget::LinuxX86_64 => "s3fs_x86_64-unknown-linux-gnu"@,
    }
}

/// The release directory that every asset is fetched from.
pub open spec fn s3fs_release() -> Seq<char> {
    "https://github.com/agnosticeng/s3fs/releases/download/v0.0.1/"@
}

/// The version shown for the storage bridge, which prints none of its own.
pub open spec fn s3fs_version() -> Seq<char> {
    "v0.0.1 (from agnosticeng/s3fs)"@
}

impl S3fsProvider {
    /// A description of the storage bridge.
    pub fn new() -> (r: Self)
        ensures
            r == S3fsProvider,
    {
        S3fsProvider
    }
}

impl BinaryInfoProvider for S3fsProvider {
    open spec fn spec_name(&self) -> Seq<char> {
        "s3fs"@
    }

    open spec fn spec_local_name(&self) -> Seq<char> {
        "s3fs"@
    }

    open spec fn spec_download_url(&self, target: SystemTarget) -> Seq<char> {
        s3fs_release() + s3fs_asset(target)
    }

    /// The binary has no version flag: its help text shows that it runs.
    open spec fn spec_version_args(&self) -> Seq<Seq<char>> {
        seq!["--help"@]
    }

    /// The binary prints no version of its own: any output shows that it ran, and
    /// the version is the one of the pinned release; an empty output shows nothing.
    open spec fn spec_parse_version(&self, output: Seq<char>) -> Option<Seq<char>> {
        if output.len() == 0 {
            None
        } else {
            Some(s3fs_version())
        }
    }

    fn name(&self) -> (r: &'static str) {
        "s3fs"
    }

    fn local_name(&self) -> (r: &'static str) {
        "s3fs"
    }

    fn get_download_url(&self, target: &SystemTarget) -> (r: String) {
        let asset = match target {
            SystemTarget::MacOsAarch64 => "s3fs_aarch64-apple-darwin",
            SystemTarget::MacOsX86_64 => "s3fs_x86_64-apple-darwin",
            SystemTarget::LinuxX86_64 => "s3fs_x86_64-unknown-linux-gnu",
        };
        let mut r = String::from_str("https://github.com/agnosticeng/s3fs/releases/download/v0.0.1/");
        r.append(asset);
        r
    }

    fn version_args(&self) -> (r: Vec<&'static str>) {
        let r = vec!["--help"];
        assert(args_view(r@) =~= seq!["--help"@]);
        r
    }

    fn parse_version_output(&self, output: &str) -> (r: Option<String>) {
        if output.unicode_len() == 0 {
            None
        } else {
            Some(String::from_str("v0.0.1 (from agnosticeng/s3fs)"))
        }
    }
}

/// A description of the storage bridge.
pub fn provider() -> (r: S3fsProvider)
    ensures
        r == S3fsProvider,
{
    S3fsProvider::new()
}

/// The bridge's version reader finds nothing in an empty output, and otherwise
/// gives the pinned version: a non-empty text that neither starts nor ends with
/// whitespace.
pub proof fn lemma_s3fs_version(output: Seq<char>)
    ensures
        output.len() == 0 ==> S3fsProvider.spec_parse_version(output) is None,
        output.len() > 0 ==> (S3fsProvider.spec_parse_version(output) matches Some(v) && v.len() > 0
            && !is_ws_char(v[0]) && !is_ws_char(v.last())),
{
    reveal_strlit("v0.0.1 (from agnosticeng/s3fs)");
    let v = s3fs_version();
    assert(v[0] == 'v');
    assert(v.last() == ')');
}

} // verus!
