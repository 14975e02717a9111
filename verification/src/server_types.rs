//! The server kinds the launcher installs (Fabric, Forge): where each lives,
//! where its files come from, and the command that launches it.

use vstd::prelude::*;

use crate::entities::Model;
use crate::fabric::{fabric_jar_url, fabric_url, law_fabric_jar_url, FABRIC_INSTALLER_VERSION};
use crate::forge::{forge_installer_url, installer_url};
use crate::text::chars_of;

verus! {

/// Base directory where all server folders live.
pub const SERVERS_DIR: &'static str = "./servers";

/// The file name under which a server's download is stored.
pub const SERVER_FILENAME: &'static str = "server";

/// The path `part` relative to `base`, as `PathBuf::join` builds it on Unix:
/// an absolute `part` replaces `base`; otherwise a separator is put between
/// them unless `base` is empty or already ends in one.
pub open spec fn path_join(base: Seq<char>, part: Seq<char>) -> Seq<char> {
    if part.len() > 0 && part[0] == '/' {
        part
    } else if base.len() == 0 || base.last() == '/' {
        base + part
    } else {
        base + "/"@ + part
    }
}

/// Joins two paths (see `path_join`).
pub fn join_path(base: &str, part: &str) -> (r: String)
    ensures
        r@ == path_join(base@, part@),
{
    let b = chars_of(base);
    let p = chars_of(part);
    if p.len() > 0 && p[0] == '/' {
        return part.to_owned();
    }
    let mut s = base.to_owned();
    if !(b.len() == 0 || b[b.len() - 1] == '/') {
        s.append("/");
    }
    s.append(part);
    s
}

/// A server named `name` (not an absolute path) lives in `./servers/{name}`.
pub proof fn law_server_dir(name: Seq<char>)
    requires
        name.len() == 0 || name[0] != '/',
    ensures
        path_join(SERVERS_DIR@, name) == "./servers/"@ + name,
{
    reveal_strlit("./servers");
    reveal_strlit("./servers/");
    reveal_strlit("/");
    assert(SERVERS_DIR@ + "/"@ + name =~= "./servers/"@ + name);
}

/// The characters of a list of strings.
pub open spec fn strings_view(v: Seq<String>) -> Seq<Seq<char>> {
    v.map_values(|s: String| s@)
}

/// A command to run: the program, its working directory and its arguments.
#[derive(Debug, Clone)]
pub struct LaunchCommand {
    pub program: String,
    pub current_dir: String,
    pub args: Vec<String>,
}

/// Appends a string to a list of arguments.
fn push_arg(args: &mut Vec<String>, a: String)
    ensures
        strings_view(final(args)@) == strings_view(old(args)@).push(a@),
{
    let ghost o = args@;
    args.push(a);
    assert(strings_view(args@) =~= strings_view(o).push(a@));
}

/// The Forge launch argument that names the argument file of a version.
pub open spec fn forge_args_file(mc: Seq<char>, sv: Seq<char>) -> Seq<char> {
    "@libraries/net/minecraftforge/forge/"@ + mc + "-"@ + sv + "/unix_args.txt"@
}

/// The Forge argument file copies both versions verbatim:
/// `@libraries/net/minecraftforge/forge/{mc}-{sv}/unix_args.txt`.
pub proof fn law_forge_args_file(mc: Seq<char>, sv: Seq<char>)
    ensures
        forge_args_file(mc, sv) == "@libraries/net/minecraftforge/forge/"@ + mc + "-"@ + sv
            + "/unix_args.txt"@,
{
}

/// A Fabric server.
pub struct FabricServer {
    dir: String,
    launch_command: LaunchCommand,
}

impl FabricServer {
    /// Fabric installer version to use.
    pub const INSTALLER_VERSION: &'static str = "1.1.1";

    /// The server's directory.
    pub closed spec fn directory(self) -> Seq<char> {
        self.dir@
    }

    /// The server's launch command.
    pub closed spec fn command(self) -> LaunchCommand {
        self.launch_command
    }

    /// The server kept in the directory `name` under the servers' base
    /// directory, launched by `java -jar` in that directory.
    pub fn new(name: &str) -> (r: FabricServer)
        ensures
            r.directory() == path_join(SERVERS_DIR@, name@),
            r.command().program@ == "java"@,
            r.command().current_dir@ == r.directory(),
            strings_view(r.command().args@) == seq!["-jar"@],
    {
        let dir = join_path(SERVERS_DIR, name);
        let mut args: Vec<String> = Vec::new();
        push_arg(&mut args, "-jar".to_owned());
        assert(strings_view(args@) =~= seq!["-jar"@]);
        FabricServer {
            launch_command: LaunchCommand { program: "java".to_owned(), current_dir: dir.clone(), args },
            dir,
        }
    }

    /// The server of a stored model, ready to be launched.
    pub fn from_existing(model: &Model) -> (r: FabricServer)
        ensures
            r.directory() == path_join(SERVERS_DIR@, model.name@),
            r.command().program@ == "java"@,
            r.command().current_dir@ == r.directory(),
            strings_view(r.command().args@) == seq!["-jar"@, SERVER_FILENAME@, "nogui"@],
    {
        let mut server = FabricServer::new(model.name.as_str());
        server.setup_launch_command(SERVER_FILENAME, model.minecraft_version.as_str(), model.server_version.as_str());
        assert(seq!["-jar"@].push(SERVER_FILENAME@).push("nogui"@) =~= seq!["-jar"@, SERVER_FILENAME@, "nogui"@]);
        server
    }

    /// The server's directory.
    pub fn dir(&self) -> (r: &str)
        ensures
            r@ == self.directory(),
    {
        self.dir.as_str()
    }

    /// The command that launches the server.
    pub fn launch_command(&self) -> (r: &LaunchCommand)
        ensures
            *r == self.command(),
    {
        &self.launch_command
    }

    /// Where the server's download is stored.
    pub fn download_path(&self) -> (r: String)
        ensures
            r@ == path_join(self.directory(), SERVER_FILENAME@),
    {
        join_path(self.dir.as_str(), SERVER_FILENAME)
    }

    /// Completes the launch command: the downloaded jar, then `nogui`.
    pub fn setup_launch_command(&mut self, downloaded_filename: &str, _minecraft_version: &str, _server_version: &str)
        ensures
            final(self).directory() == old(self).directory(),
            final(self).command().program == old(self).command().program,
            final(self).command().current_dir == old(self).command().current_dir,
            strings_view(final(self).command().args@) == strings_view(old(self).command().args@).push(
                downloaded_filename@,
            ).push("nogui"@),
    {
        push_arg(&mut self.launch_command.args, downloaded_filename.to_owned());
        push_arg(&mut self.launch_command.args, "nogui".to_owned());
    }

    /// The download URL of the Fabric server jar.
    pub fn build_download_url(minecraft_version: &str, server_version: &str) -> (r: String)
        ensures
            r@ == fabric_jar_url(minecraft_version@, server_version@, Self::INSTALLER_VERSION@),
            r@ == "https://meta.fabricmc.net/v2/versions/loader/"@ + minecraft_version@ + "/"@
                + server_version@ + "/1.1.1/server/jar"@,
    {
        proof {
            law_fabric_jar_url(minecraft_version@, server_version@);
        }
        fabric_url(minecraft_version, server_version, Self::INSTALLER_VERSION)
    }
}

/// A Forge server.
pub struct ForgeServer {
    dir: String,
    launch_command: LaunchCommand,
}

impl ForgeServer {
    /// The server's directory.
    pub closed spec fn directory(self) -> Seq<char> {
        self.dir@
    }

    /// The server's launch command.
    pub closed spec fn command(self) -> LaunchCommand {
        self.launch_command
    }

    /// The server kept in the directory `name` under the servers' base
    /// directory, launched by `java` in that directory.
    pub fn new(name: &str) -> (r: ForgeServer)
        ensures
            r.directory() == path_join(SERVERS_DIR@, name@),
            r.command().program@ == "java"@,
            r.command().current_dir@ == r.directory(),
            r.command().args@.len() == 0,
    {
        let dir = join_path(SERVERS_DIR, name);
        ForgeServer {
            launch_command: LaunchCommand {
                program: "java".to_owned(),
                current_dir: dir.clone(),
                args: Vec::new(),
            },
            dir,
        }
    }

    /// The server of a stored model, ready to be launched.
    pub fn from_existing(model: &Model) -> (r: ForgeServer)
        ensures
            r.directory() == path_join(SERVERS_DIR@, model.name@),
            r.command().program@ == "java"@,
            r.command().current_dir@ == r.directory(),
            strings_view(r.command().args@) == seq![
                forge_args_file(model.minecraft_version@, model.server_version@),
                "nogui"@,
            ],
            strings_view(r.command().args@) == seq![
                "@libraries/net/minecraftforge/forge/"@ + model.minecraft_version@ + "-"@
                    + model.server_version@ + "/unix_args.txt"@,
                "nogui"@,
            ],
    {
        let mut server = ForgeServer::new(model.name.as_str());
        assert(strings_view(server.launch_command.args@) =~= Seq::<Seq<char>>::empty());
        server.setup_launch_command(SERVER_FILENAME, model.minecraft_version.as_str(), model.server_version.as_str());
        assert(Seq::<Seq<char>>::empty().push(forge_args_file(model.minecraft_version@, model.server_version@)).push(
            "nogui"@,
        ) =~= seq![forge_args_file(model.minecraft_version@, model.server_version@), "nogui"@]);
        server
    }

    /// The server's directory.
    pub fn dir(&self) -> (r: &str)
        ensures
            r@ == self.directory(),
    {
        self.dir.as_str()
    }

    /// The command that launches the server.
    pub fn launch_command(&self) -> (r: &LaunchCommand)
        ensures
            *r == self.command(),
    {
        &self.launch_command
    }

    /// Where the server's download (the installer) is stored.
    pub fn download_path(&self) -> (r: String)
        ensures
            r@ == path_join(self.directory(), SERVER_FILENAME@),
    {
        join_path(self.dir.as_str(), SERVER_FILENAME)
    }

    /// Completes the launch command: the argument file that the installer
    /// wrote for this version, then `nogui`, run in the server's directory.
    pub fn setup_launch_command(&mut self, _downloaded_filename: &str, minecraft_version: &str, server_version: &str)
        ensures
            final(self).directory() == old(self).directory(),
            final(self).command().program == old(self).command().program,
            final(self).command().current_dir@ == old(self).directory(),
            strings_view(final(self).command().args@) == strings_view(old(self).command().args@).push(
                forge_args_file(minecraft_version@, server_version@),
            ).push("nogui"@),
            strings_view(final(self).command().args@) == strings_view(old(self).command().args@).push(
                "@libraries/net/minecraftforge/forge/"@ + minecraft_version@ + "-"@ + server_version@
                    + "/unix_args.txt"@,
            ).push("nogui"@),
    {
        self.launch_command.current_dir = self.dir.clone();
        let mut a = "@libraries/net/minecraftforge/forge/".to_owned();
        a.append(minecraft_version);
        a.append("-");
        a.append(server_version);
        a.append("/unix_args.txt");
        push_arg(&mut self.launch_command.args, a);
        push_arg(&mut self.launch_command.args, "nogui".to_owned());
    }

    /// The download URL of the Forge installer of `{minecraft_version}-{server_version}`.
    pub fn build_download_url(minecraft_version: &str, server_version: &str) -> (r: String)
        ensures
            r@ == forge_installer_url(minecraft_version@ + "-"@ + server_version@),
            r@ == "https://maven.minecraftforge.net/net/minecraftforge/forge/"@ + minecraft_version@
                + "-"@ + server_version@ + "/forge-"@ + minecraft_version@ + "-"@ + server_version@
                + "-installer.jar"@,
    {
        let mut version = minecraft_version.to_owned();
        version.append("-");
        version.append(server_version);
        installer_url(version.as_str())
    }
}

/// The Fabric server type builds the same download URL as the Fabric
/// module's `server_jar_url`.
pub proof fn law_fabric_urls_agree(mc_version: Seq<char>, loader_version: Seq<char>)
    ensures
        fabric_jar_url(mc_version, loader_version, FabricServer::INSTALLER_VERSION@) == fabric_jar_url(
            mc_version,
            loader_version,
            FABRIC_INSTALLER_VERSION@,
        ),
{
}


} // verus!
