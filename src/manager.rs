//! The registry of managed binaries and what a binary directory holds for each.

use vstd::prelude::*;
use crate::agt::AgtProvider;
use crate::clickhouse::ClickhouseProvider;
use crate::error::BinaryError;
use crate::provider::{BinaryInfoProvider, args_view, opt_view};
use crate::s3fs::S3fsProvider;
use crate::target::SystemTarget;
use crate::agt::{agt_asset, agt_release};
use crate::clickhouse::clickhouse_build;
use crate::s3fs::{s3fs_asset, s3fs_release};
use crate::text::{contains, join, join_path, occurs_at, same_text};

verus! {

/// One of the managed binaries.
#[derive(Debug, Clone, Copy, PartialEq, Eq, Structural)]
pub enum Provider {
    S3fs(S3fsProvider),
    Clickhouse(ClickhouseProvider),
    Agt(AgtProvider),
}

impl BinaryInfoProvider for Provider {
    open spec fn spec_name(&self) -> Seq<char> {
        match self {
            Provider::S3fs(p) => p.spec_name(),
            Provider::Clickhouse(p) => p.spec_name(),
            Provider::Agt(p) => p.spec_name(),
        }
    }

    open spec fn spec_local_name(&self) -> Seq<char> {
        match self {
            Provider::S3fs(p) => p.spec_local_name(),
            Provider::Clickhouse(p) => p.spec_local_name(),
            Provider::Agt(p) => p.spec_local_name(),
        }
    }

    open spec fn spec_download_url(&self, target: SystemTarget) -> Seq<char> {
        match self {
            Provider::S3fs(p) => p.spec_download_url(target),
            Provider::Clickhouse(p) => p.spec_download_url(target),
            Provider::Agt(p) => p.spec_download_url(target),
        }
    }

    open spec fn spec_version_args(&self) -> Seq<Seq<char>> {
        match self {
            Provider::S3fs(p) => p.spec_version_args(),
            Provider::Clickhouse(p) => p.spec_version_args(),
            Provider::Agt(p) => p.spec_version_args(),
        }
    }

    open spec fn spec_parse_version(&self, output: Seq<char>) -> Option<Seq<char>> {
        match self {
            Provider::S3fs(p) => p.spec_parse_version(output),
            Provider::Clickhouse(p) => p.spec_parse_version(output),
            Provider::Agt(p) => p.spec_parse_version(output),
        }
    }

    fn name(&self) -> (r: &'static str) {
        match self {
            Provider::S3fs(p) => p.name(),
            Provider::Clickhouse(p) => p.name(),
            Provider::Agt(p) => p.name(),
        }
    }

    fn local_name(&self) -> (r: &'static str) {
        match self {
            Provider::S3fs(p) => p.local_name(),
            Provider::Clickhouse(p) => p.local_name(),
            Provider::Agt(p) => p.local_name(),
        }
    }

    fn get_download_url(&self, target: &SystemTarget) -> (r: String) {
        match self {
            Provider::S3fs(p) => p.get_download_url(target),
            Provider::Clickhouse(p) => p.get_download_url(target),
            Provider::Agt(p) => p.get_download_url(target),
        }
    }

    fn version_args(&self) -> (r: Vec<&'static str>) {
        match self {
            Provider::S3fs(p) => p.version_args(),
            Provider::Clickhouse(p) => p.version_args(),
            Provider::Agt(p) => p.version_args(),
        }
    }

    fn parse_version_output(&self, output: &str) -> (r: Option<String>) {
        match self {
            Provider::S3fs(p) => p.parse_version_output(output),
            Provider::Clickhouse(p) => p.parse_version_output(output),
            Provider::Agt(p) => p.parse_version_output(output),
        }
    }
}

/// What the file system reports of an existing file.
#[derive(Debug, Clone, Copy, PartialEq, Eq, Structural)]
pub struct FileStat {
    /// The permission bits.
    pub mode: u32,
    /// The size in bytes.
    pub len: u64,
}

/// Whether some execute bit (owner, group or other) is set in `mode`.
pub open spec fn mode_executable(mode: u32) -> bool {
    mode & 0o111u32 != 0
}

/// Whether the file described by `stat` exists and may be executed.
pub open spec fn stat_executable(stat: Option<FileStat>) -> bool {
    match stat {
        Some(s) => mode_executable(s.mode),
        None => false,
    }
}

/// The size of the file described by `stat`, if it exists.
pub open spec fn stat_size(stat: Option<FileStat>) -> Option<u64> {
    match stat {
        Some(s) => Some(s.len),
        None => None,
    }
}

/// Whether the file described by `stat` exists and may be executed.
pub fn is_executable(stat: &Option<FileStat>) -> (r: bool)
    ensures
        r == stat_executable(*stat),
{
    match stat {
        Some(s) => s.mode & 0o111u32 != 0,
        None => false,
    }
}

/// A snapshot of one managed binary's place on disk.
#[derive(Debug, Clone)]
pub struct BinaryInfo {
    /// The display name of the binary.
    pub name: String,
    /// Where the binary is expected.
    pub path: String,
    /// Whether a file stands at `path`.
    pub exists: bool,
    /// Whether that file may be executed.
    pub executable: bool,
    /// The size of that file in bytes.
    pub size: Option<u64>,
}

/// Whether `info` reports the binary `name` at `path`, where the file system
/// reported `stat` (nothing: no file there).
pub open spec fn describes(info: BinaryInfo, name: Seq<char>, path: Seq<char>, stat: Option<FileStat>) -> bool {
    &&& info.name@ == name
    &&& info.path@ == path
    &&& info.exists == stat.is_some()
    &&& info.executable == stat_executable(stat)
    &&& info.size == stat_size(stat)
}

impl BinaryInfo {
    /// An executable or sized binary is one that exists.
    pub open spec fn wf(&self) -> bool {
        &&& self.executable ==> self.exists
        &&& self.size.is_some() ==> self.exists
    }

    /// Whether the binary is present and may be executed.
    pub open spec fn spec_ready(&self) -> bool {
        self.exists && self.executable
    }

    /// The snapshot of the binary `name` at `path`, where the file system reported
    /// `stat` (nothing: no file there).
    pub fn from_path(name: String, path: String, stat: Option<FileStat>) -> (r: Self)
        ensures
            describes(r, name@, path@, stat),
            r.wf(),
    {
        let exists = stat.is_some();
        let executable = is_executable(&stat);
        let size = match stat {
            Some(s) => Some(s.len),
            None => None,
        };
        BinaryInfo { name, path, exists, executable, size }
    }

    /// Whether the binary is present and may be executed.
    pub fn is_ready(&self) -> (r: bool)
        ensures
            r == self.spec_ready(),
    {
        self.exists && self.executable
    }
}

/// The path of the file `binary_name` inside `bin_dir`.
pub fn get_binary_path(bin_dir: &str, binary_name: &str) -> (r: String)
    ensures
        r@ == join_path(bin_dir@, binary_name@),
{
    join(bin_dir, binary_name)
}

/// Where `provider`'s binary stands inside `bin_dir`.
pub fn get_provider_binary_path<P: BinaryInfoProvider>(provider: &P, bin_dir: &str) -> (r: String)
    ensures
        r@ == join_path(bin_dir@, provider.spec_local_name()),
{
    get_binary_path(bin_dir, provider.local_name())
}

/// Whether the file that `stat` describes, the one at `provider`'s path, is ready.
pub fn is_binary_ready<P: BinaryInfoProvider>(provider: &P, stat: &Option<FileStat>) -> (r: bool)
    ensures
        r == (stat.is_some() && stat_executable(*stat)),
{
    stat.is_some() && is_executable(stat)
}

/// Whether `provider`'s binary at `path` may be run, where the file system reported
/// `stat` for that path; if not, the failure that says which check failed.
pub fn check_ready<P: BinaryInfoProvider>(provider: &P, path: &str, stat: &Option<FileStat>) -> (r: Result<(), BinaryError>)
    ensures
        stat.is_none() ==> (r matches Err(BinaryError::NotFound { name, path: p }) && name@
            == provider.spec_name() && p@ == path@),
        (stat.is_some() && !stat_executable(*stat)) ==> (r matches Err(BinaryError::NotExecutable {
            name,
            path: p,
        }) && name@ == provider.spec_name() && p@ == path@),
        (stat.is_some() && stat_executable(*stat)) ==> r is Ok,
{
    if stat.is_none() {
        Err(BinaryError::NotFound { name: String::from_str(provider.name()), path: String::from_str(path) })
    } else if !is_executable(stat) {
        Err(BinaryError::NotExecutable { name: String::from_str(provider.name()), path: String::from_str(path) })
    } else {
        Ok(())
    }
}

/// The snapshot of `provider`'s binary inside `bin_dir`, where the file system
/// reported `stat` for its path.
pub fn get_binary_info<P: BinaryInfoProvider>(provider: &P, bin_dir: &str, stat: Option<FileStat>) -> (r: BinaryInfo)
    ensures
        describes(r, provider.spec_name(), join_path(bin_dir@, provider.spec_local_name()), stat),
        r.wf(),
{
    let path = get_provider_binary_path(provider, bin_dir);
    BinaryInfo::from_path(String::from_str(provider.name()), path, stat)
}

/// What a successful version probe shows: the version read from `output`, or the
/// name marked as of unknown version.
pub open spec fn shown_version<P: BinaryInfoProvider>(provider: P, output: Seq<char>) -> Seq<char> {
    match provider.spec_parse_version(output) {
        Some(v) => v,
        None => provider.spec_name() + " (version unknown)"@,
    }
}

/// The version that `provider`'s binary reported: `succeeded` tells whether it ran
/// and exited with success, `output` is what it printed.
pub fn version_from_output<P: BinaryInfoProvider>(provider: &P, succeeded: bool, output: &str) -> (r: Result<String, BinaryError>)
    ensures
        succeeded ==> (r matches Ok(v) && v@ == shown_version(*provider, output@)),
        !succeeded ==> (r matches Err(BinaryError::VerificationFailed { name }) && name@ == provider.spec_name()),
{
    if succeeded {
        match provider.parse_version_output(output) {
            Some(v) => Ok(v),
            None => {
                let mut r = String::from_str(provider.name());
                r.append(" (version unknown)");
                Ok(r)
            },
        }
    } else {
        Err(BinaryError::VerificationFailed { name: String::from_str(provider.name()) })
    }
}

/// The managed binaries, in the order in which they are reported and installed.
pub open spec fn registered() -> Seq<Provider> {
    seq![
        Provider::S3fs(S3fsProvider),
        Provider::Clickhouse(ClickhouseProvider),
        Provider::Agt(AgtProvider),
    ]
}

/// The first of `ps` whose display name is `name`.
pub open spec fn find_named(ps: Seq<Provider>, name: Seq<char>) -> Option<Provider>
    decreases ps.len(),
{
    if ps.len() == 0 {
        None
    } else if ps[0].spec_name() == name {
        Some(ps[0])
    } else {
        find_named(ps.drop_first(), name)
    }
}

/// Whether `infos` reports, in order, each of `ps` inside `dir`, where the file
/// system reported `stats[i]` for the path of `ps[i]`.
pub open spec fn status_report(ps: Seq<Provider>, dir: Seq<char>, stats: Seq<Option<FileStat>>, infos: Seq<BinaryInfo>) -> bool {
    &&& infos.len() == ps.len()
    &&& forall|i: int|
        0 <= i < ps.len() ==> describes(
            #[trigger] infos[i],
            ps[i].spec_name(),
            join_path(dir, ps[i].spec_local_name()),
            stats[i],
        )
}

/// The fixed, ordered set of managed binaries.
pub struct ProviderRegistry {
    providers: Vec<Provider>,
}

impl View for ProviderRegistry {
    type V = Seq<Provider>;

    closed spec fn view(&self) -> Seq<Provider> {
        self.providers@
    }
}

impl ProviderRegistry {
    /// The registry of every managed binary.
    pub fn new() -> (r: Self)
        ensures
            r@ == registered(),
    {
        let providers = vec![
            Provider::S3fs(S3fsProvider::new()),
            Provider::Clickhouse(ClickhouseProvider::new()),
            Provider::Agt(AgtProvider::new()),
        ];
        let r = ProviderRegistry { providers };
        assert(r@ =~= registered());
        r
    }

    /// The managed binaries, in order.
    pub fn providers(&self) -> (r: &Vec<Provider>)
        ensures
            r@ == self@,
    {
        &self.providers
    }

    /// The binary whose display name is `name`.
    pub fn get_provider(&self, name: &str) -> (r: Option<&Provider>)
        ensures
            match r {
                Some(p) => find_named(self@, name@) == Some(*p),
                None => find_named(self@, name@) is None,
            },
    {
        let n = self.providers.len();
        let mut i: usize = 0;
        assert(self@.subrange(0, n as int) =~= self@);
        while i < n
            invariant
                n == self@.len(),
                i <= n,
                self@ == self.providers@,
                find_named(self@, name@) == find_named(self@.subrange(i as int, n as int), name@),
            decreases n - i,
        {
            let p = &self.providers[i];
            let ghost rest = self@.subrange(i as int, n as int);
            assert(rest[0] == *p);
            if same_text(p.name(), name) {
                return Some(p);
            }
            assert(rest.drop_first() =~= self@.subrange(i + 1, n as int));
            i = i + 1;
        }
        None
    }

    /// The path of each managed binary inside `bin_dir`, in order.
    pub fn binary_paths(&self, bin_dir: &str) -> (r: Vec<String>)
        ensures
            r@.len() == self@.len(),
            forall|i: int| 0 <= i < r@.len() ==> (#[trigger] r@[i])@ == join_path(bin_dir@, self@[i].spec_local_name()),
    {
        let mut r: Vec<String> = Vec::new();
        let n = self.providers.len();
        let mut i: usize = 0;
        while i < n
            invariant
                n == self@.len(),
                self@ == self.providers@,
                i <= n,
                r@.len() == i,
                forall|j: int| 0 <= j < i ==> (#[trigger] r@[j])@ == join_path(bin_dir@, self@[j].spec_local_name()),
            decreases n - i,
        {
            r.push(get_provider_binary_path(&self.providers[i], bin_dir));
            i = i + 1;
        }
        r
    }

    /// The snapshot of every managed binary inside `bin_dir`, in order, where
    /// `stats[i]` is what the file system reported for the path of the `i`-th one.
    pub fn get_all_status(&self, bin_dir: &str, stats: &Vec<Option<FileStat>>) -> (r: Vec<BinaryInfo>)
        requires
            stats@.len() == self@.len(),
        ensures
            status_report(self@, bin_dir@, stats@, r@),
            forall|i: int| 0 <= i < r@.len() ==> (#[trigger] r@[i]).wf(),
    {
        let mut r: Vec<BinaryInfo> = Vec::new();
        let n = self.providers.len();
        let mut i: usize = 0;
        while i < n
            invariant
                n == self@.len(),
                self@ == self.providers@,
                stats@.len() == n,
                i <= n,
                r@.len() == i,
                forall|j: int|
                    0 <= j < i ==> describes(
                        #[trigger] r@[j],
                        self@[j].spec_name(),
                        join_path(bin_dir@, self@[j].spec_local_name()),
                        stats@[j],
                    ),
                forall|j: int| 0 <= j < i ==> (#[trigger] r@[j]).wf(),
            decreases n - i,
        {
            r.push(get_binary_info(&self.providers[i], bin_dir, stats[i]));
            i = i + 1;
        }
        r
    }
}

/// The binary whose display name is `name`, or the failure that names it.
pub fn lookup_provider(registry: &ProviderRegistry, name: &str) -> (r: Result<Provider, BinaryError>)
    ensures
        match find_named(registry@, name@) {
            Some(p) => r == Ok::<Provider, BinaryError>(p),
            None => r matches Err(BinaryError::UnknownProvider { name: n }) && n@ == name@,
        },
{
    match registry.get_provider(name) {
        Some(p) => Ok(*p),
        None => Err(BinaryError::UnknownProvider { name: String::from_str(name) }),
    }
}

/// The registry of every managed binary.
pub fn registry() -> (r: ProviderRegistry)
    ensures
        r@ == registered(),
{
    ProviderRegistry::new()
}

/// The snapshot of every managed binary inside `bin_dir`, in registry order, where
/// `stats[i]` is what the file system reported for the `i`-th path of `binary_paths`.
pub fn get_all_status(bin_dir: &str, stats: &Vec<Option<FileStat>>) -> (r: Vec<BinaryInfo>)
    requires
        stats@.len() == registered().len(),
    ensures
        status_report(registered(), bin_dir@, stats@, r@),
        forall|i: int| 0 <= i < r@.len() ==> (#[trigger] r@[i]).wf(),
{
    registry().get_all_status(bin_dir, stats)
}

/// The snapshot of every managed binary inside `bin_dir`; see `get_all_status`.
pub fn get_binaries_status(bin_dir: &str, stats: &Vec<Option<FileStat>>) -> (r: Vec<BinaryInfo>)
    requires
        stats@.len() == registered().len(),
    ensures
        status_report(registered(), bin_dir@, stats@, r@),
        forall|i: int| 0 <= i < r@.len() ==> (#[trigger] r@[i]).wf(),
{
    get_all_status(bin_dir, stats)
}

/// The part of a download address that names what is fetched for `target`.
pub open spec fn release_asset(p: Provider, target: SystemTarget) -> Seq<char> {
    match p {
        Provider::S3fs(_) => s3fs_asset(target),
        Provider::Clickhouse(_) => clickhouse_build(target) + "/clickhouse"@,
        Provider::Agt(_) => agt_asset(target),
    }
}

/// Every managed binary has, for every target, a non-empty download address that
/// names the release asset of that target.
pub proof fn lemma_download_urls_name_assets(p: Provider, target: SystemTarget)
    ensures
        p.spec_download_url(target).len() > 0,
        contains(p.spec_download_url(target), release_asset(p, target)),
{
    let url = p.spec_download_url(target);
    let asset = release_asset(p, target);
    let pre = match p {
        Provider::S3fs(_) => s3fs_release(),
        Provider::Clickhouse(_) => "https://builds.clickhouse.com/master/"@,
        Provider::Agt(_) => agt_release(),
    };
    reveal_strlit("https://github.com/agnosticeng/s3fs/releases/download/v0.0.1/");
    reveal_strlit("https://builds.clickhouse.com/master/");
    reveal_strlit("https://github.com/agnosticeng/agt/releases/download/v0.0.22/");
    assert(url =~= pre + asset);
    assert(url.subrange(pre.len() as int, (pre.len() + asset.len()) as int) =~= asset);
    assert(occurs_at(url, asset, pre.len() as int));
}

/// On a directory that holds none of the binaries, the report has one entry for
/// each registered binary, in order, and none of them exists, is executable or
/// has a size.
pub proof fn lemma_status_of_empty_dir(dir: Seq<char>, stats: Seq<Option<FileStat>>, infos: Seq<BinaryInfo>)
    requires
        stats.len() == registered().len(),
        forall|i: int| 0 <= i < stats.len() ==> #[trigger] stats[i] is None,
        status_report(registered(), dir, stats, infos),
    ensures
        infos.len() == 3,
        infos[0].name@ == "s3fs"@,
        infos[1].name@ == "ClickHouse"@,
        infos[2].name@ == "agt"@,
        forall|i: int|
            0 <= i < infos.len() ==> !(#[trigger] infos[i]).exists && !infos[i].executable
                && infos[i].size is None && !infos[i].spec_ready(),
{
    assert(describes(infos[0], registered()[0].spec_name(), join_path(dir, registered()[0].spec_local_name()), stats[0]));
    assert(describes(infos[1], registered()[1].spec_name(), join_path(dir, registered()[1].spec_local_name()), stats[1]));
    assert(describes(infos[2], registered()[2].spec_name(), join_path(dir, registered()[2].spec_local_name()), stats[2]));
    assert forall|i: int| 0 <= i < infos.len() implies !(#[trigger] infos[i]).exists && !infos[i].executable
        && infos[i].size is None && !infos[i].spec_ready() by {
        assert(stats[i] is None);
    }
}

} // verus!
