//! Where the Fabric server launcher is downloaded from.

use vstd::prelude::*;

verus! {

/// Base URL for the Fabric meta API.
pub const FABRIC_META_BASE: &'static str = "https://meta.fabricmc.net/v2";

/// Fabric installer version to use (latest as of this writing).
pub const FABRIC_INSTALLER_VERSION: &'static str = "1.1.1";

/// The download URL of the Fabric server jar for a Minecraft version, a
/// loader version and an installer version.
pub open spec fn fabric_jar_url(mc_version: Seq<char>, loader_version: Seq<char>, installer: Seq<char>) -> Seq<char> {
    FABRIC_META_BASE@ + "/versions/loader/"@ + mc_version + "/"@ + loader_version + "/"@ + installer
        + "/server/jar"@
}

/// Builds `{FABRIC_META_BASE}/versions/loader/{mc}/{loader}/{installer}/server/jar`.
pub(crate) fn fabric_url(mc_version: &str, loader_version: &str, installer: &str) -> (r: String)
    ensures
        r@ == fabric_jar_url(mc_version@, loader_version@, installer@),
{
    let mut s = FABRIC_META_BASE.to_owned();
    s.append("/versions/loader/");
    s.append(mc_version);
    s.append("/");
    s.append(loader_version);
    s.append("/");
    s.append(installer);
    s.append("/server/jar");
    s
}

/// The Fabric jar URL copies both versions verbatim between fixed parts:
/// `https://meta.fabricmc.net/v2/versions/loader/{mc}/{loader}/1.1.1/server/jar`.
pub proof fn law_fabric_jar_url(mc_version: Seq<char>, loader_version: Seq<char>)
    ensures
        fabric_jar_url(mc_version, loader_version, FABRIC_INSTALLER_VERSION@)
            == "https://meta.fabricmc.net/v2/versions/loader/"@ + mc_version + "/"@ + loader_version
            + "/1.1.1/server/jar"@,
{
    reveal_strlit("https://meta.fabricmc.net/v2");
    reveal_strlit("/versions/loader/");
    reveal_strlit("/");
    reveal_strlit("1.1.1");
    reveal_strlit("/server/jar");
    reveal_strlit("https://meta.fabricmc.net/v2/versions/loader/");
    reveal_strlit("/1.1.1/server/jar");
    assert(FABRIC_META_BASE@ + "/versions/loader/"@ =~= "https://meta.fabricmc.net/v2/versions/loader/"@);
    assert("/"@ + "1.1.1"@ + "/server/jar"@ =~= "/1.1.1/server/jar"@);
    let a = "https://meta.fabricmc.net/v2/versions/loader/"@;
    assert(fabric_jar_url(mc_version, loader_version, FABRIC_INSTALLER_VERSION@) =~= a + mc_version
        + "/"@ + loader_version + ("/"@ + "1.1.1"@ + "/server/jar"@));
}

/// Build the download URL for a Fabric server jar given a Minecraft version
/// and a loader version.
pub fn server_jar_url(mc_version: &str, loader_version: &str) -> (r: String)
    ensures
        r@ == fabric_jar_url(mc_version@, loader_version@, FABRIC_INSTALLER_VERSION@),
        r@ == "https://meta.fabricmc.net/v2/versions/loader/"@ + mc_version@ + "/"@
            + loader_version@ + "/1.1.1/server/jar"@,
{
    proof {
        law_fabric_jar_url(mc_version@, loader_version@);
    }
    fabric_url(mc_version, loader_version, FABRIC_INSTALLER_VERSION)
}

} // verus!
