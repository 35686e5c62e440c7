pub mod rcon;
pub mod rotation;
pub mod scheduler;
pub mod whitelist;
pub mod server_settings;
