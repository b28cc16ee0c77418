//! The pipeline runner binary.

use vstd::prelude::*;
use crate::provider::{BinaryInfoProvider, args_view, opt_view};
use crate::target::SystemTarget;
use crate::text::{
    contains, find_line, first_containing, is_ws_char, lemma_first_containing_exists,
    lemma_first_containing_found, lemma_no_line_without, lemma_trim_keeps, lines, trim, trim_text,
};

verus! {

/// Describes the pipeline runner binary.
#[derive(Debug, Clone, Copy, PartialEq, Eq, Structural)]
pub struct AgtProvider;

/// The release asset for `target`.
pub open spec fn agt_asset(target: SystemTarget) -> Seq<char> {
    match target {
        SystemTarget::MacOsAarch64 => "agt_0.0.22_darwin_arm64"@,
        SystemTarget::MacOsX86_64 => "agt_0.0.22_darwin_amd64_v1"@,
        SystemTarget::LinuxX86_64 => "agt_0.0.22_linux_amd64_v1"@,
    }
}

/// The release directory that every asset is fetched from.
pub open spec fn agt_release() -> Seq<char> {
    "https://github.com/agnosticeng/agt/releases/download/v0.0.22/"@
}

/// The text that marks the line carrying the version.
pub open spec fn agt_marker() -> Seq<char> {
    "agt"@
}

/// The first line of `output` that names the runner, trimmed.
pub open spec fn agt_version(output: Seq<char>) -> Option<Seq<char>> {
    match first_containing(lines(output), agt_marker()) {
        Some(line) => Some(trim(line)),
        None => None,
    }
}

impl AgtProvider {
    /// A description of the pipeline runner.
    pub fn new() -> (r: Self)
        ensures
            r == AgtProvider,
    {
        AgtProvider
    }
}

impl BinaryInfoProvider for AgtProvider {
    open spec fn spec_name(&self) -> Seq<char> {
        "agt"@
    }

    open spec fn spec_local_name(&self) -> Seq<char> {
        "agt"@
    }

    open spec fn spec_download_url(&self, target: SystemTarget) -> Seq<char> {
        agt_release() + agt_asset(target)
    }

    open spec fn spec_version_args(&self) -> Seq<Seq<char>> {
        seq!["--version"@]
    }

    open spec fn spec_parse_version(&self, output: Seq<char>) -> Option<Seq<char>> {
        agt_version(output)
    }

    fn name(&self) -> (r: &'static str) {
        "agt"
    }

    fn local_name(&self) -> (r: &'static str) {
        "agt"
    }

    fn get_download_url(&self, target: &SystemTarget) -> (r: String) {
        let asset = match target {
            SystemTarget::MacOsAarch64 => "agt_0.0.22_darwin_arm64",
            SystemTarget::MacOsX86_64 => "agt_0.0.22_darwin_amd64_v1",
            SystemTarget::LinuxX86_64 => "agt_0.0.22_linux_amd64_v1",
        };
        let mut r = String::from_str("https://github.com/agnosticeng/agt/releases/download/v0.0.22/");
        r.append(asset);
        r
    }

    fn version_args(&self) -> (r: Vec<&'static str>) {
        let r = vec!["--version"];
        assert(args_view(r@) =~= seq!["--version"@]);
        r
    }

    fn parse_version_output(&self, output: &str) -> (r: Option<String>) {
        match find_line(output, "agt") {
            Some(line) => Some(trim_text(line.as_str())),
            None => None,
        }
    }
}

/// A description of the pipeline runner.
pub fn provider() -> (r: AgtProvider)
    ensures
        r == AgtProvider,
{
    AgtProvider::new()
}

/// The runner's version reader finds nothing in an empty output or in one that
/// never names the runner; where some line names it, among any other lines, it
/// gives a non-empty text that names the runner and neither starts nor ends with
/// whitespace.
pub proof fn lemma_agt_version(output: Seq<char>)
    ensures
        output.len() == 0 ==> agt_version(output) is None,
        !contains(output, agt_marker()) ==> agt_version(output) is None,
        (exists|i: int| 0 <= i < lines(output).len() && contains(#[trigger] lines(output)[i], agt_marker()))
            ==> (agt_version(output) matches Some(v) && v.len() > 0 && contains(v, agt_marker())
            && !is_ws_char(v[0]) && !is_ws_char(v.last())),
{
    let m = agt_marker();
    if !contains(output, m) {
        lemma_no_line_without(output, m);
    }
    if output.len() == 0 {
        assert(lines(output).len() == 0);
    }
    if exists|i: int| 0 <= i < lines(output).len() && contains(#[trigger] lines(output)[i], m) {
        let i = choose|i: int| 0 <= i < lines(output).len() && contains(#[trigger] lines(output)[i], m);
        lemma_first_containing_exists(lines(output), m, i);
        let line = first_containing(lines(output), m)->Some_0;
        let _ = lemma_first_containing_found(lines(output), m);
        reveal_strlit("agt");
        lemma_trim_keeps(line, m);
    }
}

} // verus!
