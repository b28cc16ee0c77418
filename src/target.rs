//! The supported operating system and processor pairs.

use vstd::prelude::*;
use crate::error::{BinaryError, error_message, is_unsupported, unsupported_message};
use crate::text::{contains, occurs_at, same_text};

verus! {

/// A supported operating system and processor pair.
#[derive(Debug, Clone, Copy, PartialEq, Eq, Structural)]
pub enum SystemTarget {
    MacOsAarch64,
    MacOsX86_64,
    LinuxX86_64,
}

/// The target named by an operating system and processor name, if it is supported.
pub open spec fn target_of(os: Seq<char>, arch: Seq<char>) -> Option<SystemTarget> {
    if os == "macos"@ && arch == "aarch64"@ {
        Some(SystemTarget::MacOsAarch64)
    } else if os == "macos"@ && arch == "x86_64"@ {
        Some(SystemTarget::MacOsX86_64)
    } else if os == "linux"@ && arch == "x86_64"@ {
        Some(SystemTarget::LinuxX86_64)
    } else {
        None
    }
}

impl SystemTarget {
    /// The target for the operating system `os` and processor `arch`, as the
    /// runtime names them; any other pair is refused with both names.
    pub fn detect(os: &str, arch: &str) -> (r: Result<SystemTarget, BinaryError>)
        ensures
            target_of(os@, arch@) matches Some(t) ==> r == Ok::<SystemTarget, BinaryError>(t),
            target_of(os@, arch@) is None ==> (r matches Err(e) && is_unsupported(e, os@, arch@)),
    {
        let mac = same_text(os, "macos");
        let linux = same_text(os, "linux");
        let arm = same_text(arch, "aarch64");
        let x86 = same_text(arch, "x86_64");
        if mac && arm {
            Ok(SystemTarget::MacOsAarch64)
        } else if mac && x86 {
            Ok(SystemTarget::MacOsX86_64)
        } else if linux && x86 {
            Ok(SystemTarget::LinuxX86_64)
        } else {
            Err(BinaryError::UnsupportedPlatform { os: String::from_str(os), arch: String::from_str(arch) })
        }
    }
}

/// Every pair that `detect` refuses comes back with a message that holds the
/// operating system name and the processor name exactly as given.
pub proof fn lemma_unsupported_names_pair(os: Seq<char>, arch: Seq<char>)
    ensures
        contains(unsupported_message(os, arch), os),
        contains(unsupported_message(os, arch), arch),
{
    let m = unsupported_message(os, arch);
    let pre = "Unsupported system: "@;
    let sp = " "@;
    assert(m.subrange(pre.len() as int, (pre.len() + os.len()) as int) =~= os);
    assert(occurs_at(m, os, pre.len() as int));
    let k = pre.len() + os.len() + sp.len();
    assert(m.subrange(k as int, (k + arch.len()) as int) =~= arch);
    assert(occurs_at(m, arch, k as int));
}

/// The failure of `detect` on an unsupported pair is shown with both names.
pub proof fn lemma_detect_failure_message(os: Seq<char>, arch: Seq<char>, e: BinaryError)
    requires
        target_of(os, arch) is None,
        is_unsupported(e, os, arch),
    ensures
        contains(error_message(e), os),
        contains(error_message(e), arch),
{
    lemma_unsupported_names_pair(os, arch);
}

} // verus!
