//! The database engine binary.

use vstd::prelude::*;
use crate::provider::{BinaryInfoProvider, args_view, opt_view};
use crate::target::SystemTarget;
use crate::text::{
    contains, find_line, first_containing, is_ws_char, lemma_first_containing_exists,
    lemma_no_line_without, lemma_trim_keeps, lines, trim, trim_text,
};

verus! {

/// Describes the database engine binary.
#[derive(Debug, Clone, Copy, PartialEq, Eq, Structural)]
pub struct ClickhouseProvider;

/// The build directory for `target`.
pub open spec fn clickhouse_build(target: SystemTarget) -> Seq<char> {
    match target {
        SystemTarget::MacOsAarch64 => "macos-aarch64"@,
        SystemTarget::MacOsX86_64 => "macos"@,
        SystemTarget::LinuxX86_64 => "amd64"@,
    }
}

/// The text that marks the line carrying the version.
pub open spec fn clickhouse_marker() -> Seq<char> {
    "ClickHouse"@
}

/// The first line of `output` that names the engine, trimmed.
pub open spec fn clickhouse_version(output: Seq<char>) -> Option<Seq<char>> {
    match first_containing(lines(output), clickhouse_marker()) {
        Some(line) => Some(trim(line)),
        None => None,
    }
}

impl ClickhouseProvider {
    /// A description of the database engine.
    pub fn new() -> (r: Self)
        ensures
            r == ClickhouseProvider,
    {
        ClickhouseProvider
    }
}

impl BinaryInfoProvider for ClickhouseProvider {
    open spec fn spec_name(&self) -> Seq<char> {
        "ClickHouse"@
    }

    open spec fn spec_local_name(&self) -> Seq<char> {
        "clickhouse"@
    }

    open spec fn spec_download_url(&self, target: SystemTarget) -> Seq<char> {
        "https://builds.clickhouse.com/master/"@ + clickhouse_build(target) + "/clickhouse"@
    }

    open spec fn spec_version_args(&self) -> Seq<Seq<char>> {
        seq!["--version"@]
    }

    open spec fn spec_parse_version(&self, output: Seq<char>) -> Option<Seq<char>> {
        clickhouse_version(output)
    }

    fn name(&self) -> (r: &'static str) {
        "ClickHouse"
    }

    fn local_name(&self) -> (r: &'static str) {
        "clickhouse"
    }

    fn get_download_url(&self, target: &SystemTarget) -> (r: String) {
        let build = match target {
            SystemTarget::MacOsAarch64 => "macos-aarch64",
            SystemTarget::MacOsX86_64 => "macos",
            SystemTarget::LinuxX86_64 => "amd64",
        };
        let mut r = String::from_str("https://builds.clickhouse.com/master/");
        r.append(build);
        r.append("/clickhouse");
        r
    }

    fn version_args(&self) -> (r: Vec<&'static str>) {
        let r = vec!["--version"];
        assert(args_view(r@) =~= seq!["--version"@]);
        r
    }

    fn parse_version_output(&self, output: &str) -> (r: Option<String>) {
        match find_line(output, "ClickHouse") {
            Some(line) => Some(trim_text(line.as_str())),
            None => None,
        }
    }
}

/// A description of the database engine.
pub fn provider() -> (r: ClickhouseProvider)
    ensures
        r == ClickhouseProvider,
{
    ClickhouseProvider::new()
}

/// The engine's version reader finds nothing in an empty output or in one that
/// never names the engine; where some line names it, among any other lines, it
/// gives a non-empty text that names the engine and neither starts nor ends with
/// whitespace.
pub proof fn lemma_clickhouse_version(output: Seq<char>)
    ensures
        output.len() == 0 ==> clickhouse_version(output) is None,
        !contains(output, clickhouse_marker()) ==> clickhouse_version(output) is None,
        (exists|i: int|
            0 <= i < lines(output).len() && contains(#[trigger] lines(output)[i], clickhouse_marker()))
            ==> (clickhouse_version(output) matches Some(v) && v.len() > 0 && contains(
            v,
            clickhouse_marker(),
        ) && !is_ws_char(v[0]) && !is_ws_char(v.last())),
{
    let m = clickhouse_marker();
    if !contains(output, m) {
        lemma_no_line_without(output, m);
    }
    if output.len() == 0 {
        assert(lines(output).len() == 0);
    }
    if exists|i: int| 0 <= i < lines(output).len() && contains(#[trigger] lines(output)[i], m) {
        let i = choose|i: int| 0 <= i < lines(output).len() && contains(#[trigger] lines(output)[i], m);
        lemma_first_containing_exists(lines(output), m, i);
        let line = first_containing(lines(output), m)->Some_0;
        let _ = crate::text::lemma_first_containing_found(lines(output), m);
        reveal_strlit("ClickHouse");
        lemma_trim_keeps(line, m);
    }
}

} // verus!
