//! The servers the launcher manages, as stored in its database.

use vstd::prelude::*;

verus! {

/// The type / mod-loader of a Minecraft server.
#[derive(Debug, Clone, Copy, PartialEq, Eq, Structural)]
pub enum ServerType {
    Vanilla,
    Forge,
    NeoForge,
    Fabric,
    Quilt,
    LiteLoader,
}

/// The name under which a server type is stored and exchanged (lower case).
pub open spec fn server_type_value(t: ServerType) -> Seq<char> {
    match t {
        ServerType::Vanilla => "vanilla"@,
        ServerType::Forge => "forge"@,
        ServerType::NeoForge => "neoforge"@,
        ServerType::Fabric => "fabric"@,
        ServerType::Quilt => "quilt"@,
        ServerType::LiteLoader => "liteloader"@,
    }
}

/// The name of a server type's variant, as `Debug` prints it.
pub open spec fn server_type_debug(t: ServerType) -> Seq<char> {
    match t {
        ServerType::Vanilla => "Vanilla"@,
        ServerType::Forge => "Forge"@,
        ServerType::NeoForge => "NeoForge"@,
        ServerType::Fabric => "Fabric"@,
        ServerType::Quilt => "Quilt"@,
        ServerType::LiteLoader => "LiteLoader"@,
    }
}

impl ServerType {
    /// The stored / exchanged name of this server type.
    pub fn value(&self) -> (r: &'static str)
        ensures
            r@ == server_type_value(*self),
    {
        match self {
            ServerType::Vanilla => "vanilla",
            ServerType::Forge => "forge",
            ServerType::NeoForge => "neoforge",
            ServerType::Fabric => "fabric",
            ServerType::Quilt => "quilt",
            ServerType::LiteLoader => "liteloader",
        }
    }

    /// The variant's name, as `Debug` prints it.
    pub fn debug_name(&self) -> (r: &'static str)
        ensures
            r@ == server_type_debug(*self),
    {
        match self {
            ServerType::Vanilla => "Vanilla",
            ServerType::Forge => "Forge",
            ServerType::NeoForge => "NeoForge",
            ServerType::Fabric => "Fabric",
            ServerType::Quilt => "Quilt",
            ServerType::LiteLoader => "LiteLoader",
        }
    }
}

/// A server as stored in the `servers` table.
#[derive(Debug, Clone)]
pub struct Model {
    pub id: i32,
    pub name: String,
    pub server_type: ServerType,
    pub minecraft_version: String,
    pub server_version: String,
}

} // verus!
