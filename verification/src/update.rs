//! Which release files belong to which operating system.

use vstd::prelude::*;

use crate::text::{reads_as, to_chars};

verus! {

/// The name of the release file for an operating system; none for a system
/// without releases.
pub open spec fn asset_for(os: Seq<char>) -> Option<Seq<char>> {
    if os == "windows"@ {
        Some("pwdgen-windows.exe"@)
    } else if os == "linux"@ {
        Some("pwdgen-ubuntu"@)
    } else if os == "macos"@ {
        Some("pwdgen-macos"@)
    } else {
        None
    }
}

/// The name of the installed program on an operating system.
pub open spec fn binary_for(os: Seq<char>) -> Seq<char> {
    if os == "windows"@ {
        "pwdgen.exe"@
    } else {
        "pwdgen"@
    }
}

/// The name of the release file to download on the operating system `os`;
/// `None` where no release exists for it.
pub fn asset_name(os: &str) -> (name: Option<&'static str>)
    ensures
        match asset_for(os@) {
            Some(asset) => name matches Some(n) && n@ == asset,
            None => name is None,
        },
{
    let system = to_chars(os);
    if reads_as(&system, "windows") {
        Some("pwdgen-windows.exe")
    } else if reads_as(&system, "linux") {
        Some("pwdgen-ubuntu")
    } else if reads_as(&system, "macos") {
        Some("pwdgen-macos")
    } else {
        None
    }
}

/// The name under which the program is installed on the operating system
/// `os`.
pub fn bin_name(os: &str) -> (name: &'static str)
    ensures
        name@ == binary_for(os@),
{
    let system = to_chars(os);
    if reads_as(&system, "windows") {
        "pwdgen.exe"
    } else {
        "pwdgen"
    }
}

} // verus!
