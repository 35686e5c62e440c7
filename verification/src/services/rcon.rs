//! Where and how the backend reaches the game server's RCON port.
use vstd::prelude::*;
use vstd::string::*;

use crate::config::FactorioConfig;
use crate::text::{decimal, push_decimal, push_str, trim, trimmed};

verus! {

/// Address (`host:port`) and password of the RCON endpoint.
#[derive(Debug, Clone)]
pub struct RconConfig {
    pub url: String,
    pub password: String,
}

impl RconConfig {
    /// The endpoint of the configured host and port, with the password read
    /// from the password file (given here as the file's contents) stripped of
    /// surrounding white space.
    pub fn from_factorio_config(cfg: &FactorioConfig, password_file: &str) -> (r: Self)
        ensures
            r.url@ == cfg.rcon_host@ + ":"@ + decimal(cfg.rcon_port as nat),
            r.password@ == trimmed(password_file@),
    {
        let password = trim(password_file);
        let mut url = String::new();
        push_str(&mut url, cfg.rcon_host.as_str());
        push_str(&mut url, ":");
        push_decimal(&mut url, cfg.rcon_port as u128);
        RconConfig { url, password }
    }
}

} // verus!
