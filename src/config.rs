//! The tool's settings and the places inside its working directory.

use vstd::prelude::*;
use crate::text::{decimal, decimal_text, join, join_path};

verus! {

/// The settings of one run of the tool.
#[derive(Debug, Clone)]
pub struct AppConfig {
    /// The tool's working directory.
    pub agnostic_dir: String,
    /// Whether extra diagnostics are printed.
    pub verbose: bool,
}

impl AppConfig {
    /// Settings for the working directory `agnostic_dir`, without extra diagnostics.
    pub fn new(agnostic_dir: String) -> (r: Self)
        ensures
            r.agnostic_dir == agnostic_dir,
            !r.verbose,
    {
        AppConfig { agnostic_dir, verbose: false }
    }

    /// The same settings with extra diagnostics.
    pub fn with_verbose(self) -> (r: Self)
        ensures
            r.agnostic_dir == self.agnostic_dir,
            r.verbose,
    {
        let mut c = self;
        c.verbose = true;
        c
    }
}

/// The path of `subdir` inside the working directory.
pub fn get_agnostic_subdir(config: &AppConfig, subdir: &str) -> (r: String)
    ensures
        r@ == join_path(config.agnostic_dir@, subdir@),
{
    join(config.agnostic_dir.as_str(), subdir)
}

/// The subdirectories that the tool keeps inside its working directory: the
/// managed binaries, then the user's files.
pub open spec fn app_subdirectories() -> Seq<Seq<char>> {
    seq!["bin"@, "user"@]
}

/// The paths of the subdirectories that the tool keeps inside its working
/// directory, in the order in which they are created.
pub fn app_subdirectory_paths(config: &AppConfig) -> (r: Vec<String>)
    ensures
        r@.len() == app_subdirectories().len(),
        forall|i: int|
            0 <= i < r@.len() ==> (#[trigger] r@[i])@ == join_path(config.agnostic_dir@, app_subdirectories()[i]),
{
    let mut r: Vec<String> = Vec::new();
    r.push(get_agnostic_subdir(config, "bin"));
    r.push(get_agnostic_subdir(config, "user"));
    r
}

/// The directory of the managed binaries.
pub fn bin_dir(config: &AppConfig) -> (r: String)
    ensures
        r@ == join_path(config.agnostic_dir@, "bin"@),
{
    get_agnostic_subdir(config, "bin")
}

/// The file that holds the user's tokens.
pub fn auth_file_path(config: &AppConfig) -> (r: String)
    ensures
        r@ == join_path(config.agnostic_dir@, "user/auth.json"@),
{
    get_agnostic_subdir(config, "user/auth.json")
}

/// The file that holds the team the user picked.
pub fn get_team_json_path(config: &AppConfig) -> (r: String)
    ensures
        r@ == join_path(config.agnostic_dir@, "user/team.json"@),
{
    get_agnostic_subdir(config, "user/team.json")
}

/// How long a temporary file is kept, in nanoseconds: one day.
pub const TEMP_FILE_LIFETIME_NANOS: u128 = 86_400_000_000_000;

/// Whether a temporary file last modified at `modified_nanos` is removed at
/// `now_nanos` (both counted from the epoch): it is when it is older than a day.
pub fn is_stale(modified_nanos: u128, now_nanos: u128) -> (r: bool)
    ensures
        r == (modified_nanos + TEMP_FILE_LIFETIME_NANOS < now_nanos),
{
    now_nanos >= TEMP_FILE_LIFETIME_NANOS && modified_nanos < now_nanos - TEMP_FILE_LIFETIME_NANOS
}

/// The name of a temporary file: the prefix (`temp` when none is given), an
/// underscore, the time stamp, then the suffix (none when none is given).
pub open spec fn temp_file_name(prefix: Option<Seq<char>>, suffix: Option<Seq<char>>, stamp: nat) -> Seq<char> {
    let p = match prefix {
        Some(p) => p,
        None => "temp"@,
    };
    let s = match suffix {
        Some(s) => s,
        None => Seq::empty(),
    };
    p + "_"@ + decimal(stamp) + s
}

/// A path inside `dir` for a temporary file that does not exist yet, told apart
/// by `stamp_nanos`, the current time in nanoseconds since the epoch.
pub fn temp_file_path(dir: &str, prefix: Option<&str>, suffix: Option<&str>, stamp_nanos: u128) -> (r: String)
    ensures
        r@ == join_path(
            dir@,
            temp_file_name(
                match prefix {
                    Some(p) => Some(p@),
                    None => None,
                },
                match suffix {
                    Some(s) => Some(s@),
                    None => None,
                },
                stamp_nanos as nat,
            ),
        ),
{
    let mut name = match prefix {
        Some(p) => String::from_str(p),
        None => String::from_str("temp"),
    };
    name.append("_");
    let stamp = decimal_text(stamp_nanos);
    name.append(stamp.as_str());
    match suffix {
        Some(s) => name.append(s),
        None => {
            assert(name@ + Seq::<char>::empty() =~= name@);
        },
    }
    join(dir, name.as_str())
}

} // verus!
