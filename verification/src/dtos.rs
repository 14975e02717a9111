//! The bodies that the HTTP API receives and sends.

use vstd::prelude::*;

use crate::entities::{Model, ServerType};

verus! {

/// A request to create a server.
#[derive(Debug, Clone)]
pub struct CreateServerRequest {
    /// Display name – must match the folder name (alphanumeric + hyphens).
    pub name: String,
    /// Mod loader / server type.
    pub server_type: ServerType,
    /// Minecraft version, e.g. "1.20.1".
    pub minecraft_version: String,
    /// Loader / mod-loader version, e.g. "47.2.0" (Forge) or "0.19.3" (Fabric).
    pub server_version: String,
}

/// A created server, as sent back to the client.
#[derive(Debug, Clone)]
pub struct ServerResponse {
    pub id: i32,
    pub name: String,
    pub server_type: ServerType,
    pub minecraft_version: String,
    pub server_version: String,
}

impl ServerResponse {
    /// The response that describes a stored server.
    pub fn from_model(model: Model) -> (r: ServerResponse)
        ensures
            r.id == model.id,
            r.name == model.name,
            r.server_type == model.server_type,
            r.minecraft_version == model.minecraft_version,
            r.server_version == model.server_version,
    {
        ServerResponse {
            id: model.id,
            name: model.name,
            server_type: model.server_type,
            minecraft_version: model.minecraft_version,
            server_version: model.server_version,
        }
    }
}

} // verus!
