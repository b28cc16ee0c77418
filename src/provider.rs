//! The description that each managed binary gives of itself.

use vstd::prelude::*;
use crate::target::SystemTarget;

verus! {

/// The characters of an optional text.
pub open spec fn opt_view(o: Option<String>) -> Option<Seq<char>> {
    match o {
        Some(s) => Some(s@),
        None => None,
    }
}

/// The characters of each argument.
pub open spec fn args_view(v: Seq<&'static str>) -> Seq<Seq<char>> {
    v.map_values(|a: &'static str| a@)
}

/// How one external binary is named, fetched and asked for its version.
pub trait BinaryInfoProvider {
    /// The display name, also the key of a registry lookup.
    spec fn spec_name(&self) -> Seq<char>;

    /// The file name inside the binary directory.
    spec fn spec_local_name(&self) -> Seq<char>;

    /// Where the release for `target` is downloaded from.
    spec fn spec_download_url(&self, target: SystemTarget) -> Seq<char>;

    /// The arguments that make the binary print its version.
    spec fn spec_version_args(&self) -> Seq<Seq<char>>;

    /// The version read from what the binary printed.
    spec fn spec_parse_version(&self, output: Seq<char>) -> Option<Seq<char>>;

    /// The display name of the binary.
    fn name(&self) -> (r: &'static str)
        ensures
            r@ == self.spec_name(),
    ;

    /// The file name that the binary is saved under.
    fn local_name(&self) -> (r: &'static str)
        ensures
            r@ == self.spec_local_name(),
    ;

    /// The download address of the release for `target`.
    fn get_download_url(&self, target: &SystemTarget) -> (r: String)
        ensures
            r@ == self.spec_download_url(*target),
    ;

    /// The arguments that make the binary print its version.
    fn version_args(&self) -> (r: Vec<&'static str>)
        ensures
            args_view(r@) == self.spec_version_args(),
    ;

    /// The version shown in `output`, the text that the binary printed.
    fn parse_version_output(&self, output: &str) -> (r: Option<String>)
        ensures
            opt_view(r) == self.spec_parse_version(output@),
    ;
}

} // verus!
