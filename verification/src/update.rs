//! Which release an agent updates itself from.

use vstd::prelude::*;
use vstd::string::StringExecFns;
use crate::text::same_text;

verus! {

/// Where the latest release is published.
pub const RELEASE_URL: &'static str =
    "https://github.com/theakash04/Nubilus/releases/latest/download";

/// The release file for a system of kind `os` on a machine of kind `arch`,
/// both named as the compiler names them, or `None` where no release is
/// built for the pair.
pub open spec fn asset_for(os: Seq<char>, arch: Seq<char>) -> Option<Seq<char>> {
    if os == "linux"@ && arch == "x86_64"@ {
        Some("nubilus-agent-linux-amd64"@)
    } else if os == "linux"@ && arch == "aarch64"@ {
        Some("nubilus-agent-linux-arm64"@)
    } else if os == "macos"@ && arch == "x86_64"@ {
        Some("nubilus-agent-darwin-amd64"@)
    } else if os == "macos"@ && arch == "aarch64"@ {
        Some("nubilus-agent-darwin-arm64"@)
    } else {
        None
    }
}

/// Names the release file for this platform, if there is one.
pub fn release_asset(os: &str, arch: &str) -> (asset: Option<String>)
    ensures
        asset is Some <==> asset_for(os@, arch@) is Some,
        asset matches Some(name) ==> Some(name@) == asset_for(os@, arch@),
{
    let linux = same_text(os, "linux");
    let macos = same_text(os, "macos");
    let amd64 = same_text(arch, "x86_64");
    let arm64 = same_text(arch, "aarch64");
    if linux && amd64 {
        Some(String::from_str("nubilus-agent-linux-amd64"))
    } else if linux && arm64 {
        Some(String::from_str("nubilus-agent-linux-arm64"))
    } else if macos && amd64 {
        Some(String::from_str("nubilus-agent-darwin-amd64"))
    } else if macos && arm64 {
        Some(String::from_str("nubilus-agent-darwin-arm64"))
    } else {
        None
    }
}

/// Where the release file called `asset` is downloaded from.
pub fn download_url(asset: &str) -> (url: String)
    ensures
        url@ == RELEASE_URL@ + "/"@ + asset@,
{
    let mut url = String::from_str(RELEASE_URL);
    url.append("/");
    url.append(asset);
    url
}

} // verus!
