//! Configuration of the backend, read from a TOML file by the server.
use vstd::prelude::*;
use vstd::string::*;

verus! {

#[derive(Debug, Clone)]
pub struct AppConfig {
    pub server: ServerConfig,
    pub factorio: FactorioConfig,
    pub eth: EthConfig,
    pub schedule: ScheduleConfig,
    pub admin: AdminConfig,
    pub database: DatabaseConfig,
    pub logging: LoggingConfig,
}

#[derive(Debug, Clone)]
pub struct ServerConfig {
    pub bind: String,
    pub static_dir: String,
    pub public_url: String,
}

#[derive(Debug, Clone)]
pub struct FactorioConfig {
    pub binary: String,
    pub saves_dir: String,
    pub archive_dir: String,
    pub data_dir: String,
    pub rcon_host: String,
    pub rcon_port: u16,
    pub rcon_pw_file: String,
    pub map_gen_settings: String,
    pub server_settings: String,
    pub factorio_version: String,
}

#[derive(Debug, Clone)]
pub struct EthConfig {
    pub rpc_url: String,
    pub deposit_address: String,
    pub base_fee_wei: String,
    pub payment_expiry_hours: u64,
}

#[derive(Debug, Clone)]
pub struct ScheduleConfig {
    pub rotation_day: String,
    pub rotation_hour: u8,
    pub season_duration_days: u32,
    pub hardcore: bool,
    pub rebuy_multiplier: u32,
}

#[derive(Debug, Clone)]
pub struct AdminConfig {
    pub token: String,
}

#[derive(Debug, Clone)]
pub struct DatabaseConfig {
    pub url: String,
}

#[derive(Debug, Clone)]
pub struct LoggingConfig {
    pub level: String,
    pub format: String,
}

/// Registration fee, in wei, when the file names none.
pub fn default_base_fee_wei() -> (r: String)
    ensures
        r@ == "333333333333333"@,
{
    String::from_str("333333333333333")
}

/// Hours an unpaid registration waits before it expires, when the file names none.
pub fn default_payment_expiry_hours() -> (r: u64)
    ensures
        r == 48,
{
    48
}

/// Length of a season in days, when the file names none.
pub fn default_season_duration_days() -> (r: u32)
    ensures
        r == 30,
{
    30
}

/// Price multiplier per death for a rebuy, when the file names none.
pub fn default_rebuy_multiplier() -> (r: u32)
    ensures
        r == 2,
{
    2
}

impl Default for LoggingConfig {
    /// Level `info`, JSON lines.
    fn default() -> (r: Self)
        ensures
            r.level@ == "info"@,
            r.format@ == "json"@,
    {
        LoggingConfig { level: String::from_str("info"), format: String::from_str("json") }
    }
}

} // verus!
