//! Where the Forge installer is downloaded from.

use vstd::prelude::*;

verus! {

/// The URL of the Forge installer of a version.
pub open spec fn forge_installer_url(version: Seq<char>) -> Seq<char> {
    "https://maven.minecraftforge.net/net/minecraftforge/forge/"@ + version + "/forge-"@ + version
        + "-installer.jar"@
}

/// The Forge installer URL copies the version verbatim, twice, between fixed
/// parts.
pub proof fn law_forge_installer_url(version: Seq<char>)
    ensures
        forge_installer_url(version) == "https://maven.minecraftforge.net/net/minecraftforge/forge/"@
            + version + "/forge-"@ + version + "-installer.jar"@,
{
}

/// Build the full Forge installer URL for a version string.
pub fn installer_url(version: &str) -> (r: String)
    ensures
        r@ == forge_installer_url(version@),
        r@ == "https://maven.minecraftforge.net/net/minecraftforge/forge/"@ + version@ + "/forge-"@
            + version@ + "-installer.jar"@,
{
    let mut s = "https://maven.minecraftforge.net/net/minecraftforge/forge/".to_owned();
    s.append(version);
    s.append("/forge-");
    s.append(version);
    s.append("-installer.jar");
    s
}

} // verus!
