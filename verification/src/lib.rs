//! Verified core of a Minecraft server launcher back end: parsing and
//! rewriting `server.properties` files, the property model exchanged with
//! clients, download URLs and launch commands for mod loaders, and the
//! decisions taken by the HTTP handlers.

pub mod text;
pub mod properties_format;
pub mod server_properties;
pub mod routes;
pub mod laws;
pub mod settings_laws;
pub mod entities;
pub mod dtos;
pub mod fabric;
pub mod forge;
pub mod server_types;
pub mod file_downloader;
pub mod db;
