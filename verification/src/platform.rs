use vstd::prelude::*;

verus! {

/// The operating system the application runs on.
#[derive(Clone, Copy, PartialEq, Eq, Debug, Structural)]
pub enum Platform {
    Windows,
    MacOS,
    Linux,
    Other,
}

pub open spec fn os_profile_subdir(p: Platform) -> Seq<char> {
    match p {
        Platform::Windows => "windows"@,
        Platform::MacOS => "macos"@,
        Platform::Linux => "linux"@,
        Platform::Other => "unknown"@,
    }
}

/// The subdirectory of the profiles directory that holds this platform's profiles.
pub fn get_os_profile_subdir(platform: Platform) -> (r: &'static str)
    ensures
        r@ == os_profile_subdir(platform),
{
    match platform {
        Platform::Windows => "windows",
        Platform::MacOS => "macos",
        Platform::Linux => "linux",
        Platform::Other => "unknown",
    }
}

} // verus!
