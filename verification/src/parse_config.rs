//! The validated configuration the agent runs under.
//!
//! The process environment is read outside the library; the functions here
//! take the raw textual settings as plain values, validate them, and build
//! the `Config` the sampling and dispatch core consumes.

use vstd::prelude::*;
use crate::text::{all_digits, digits_val, parse_u64, str_eq, str_eq_ignore_ascii_case,
    eq_ignore_ascii_case_seq};

verus! {

/// The watching mode: report every cycle, or warn on threshold breaches.
#[derive(Debug, PartialEq, Clone)]
pub enum ConfigMode {
    /// Collect and report each flagged metric every cycle, forever.
    ConfigInterval {
        ram: bool,
        cpu: bool,
        system_uptime: bool,
        cpu_average: bool,
        disk: bool,
        swap: bool,
    },
    /// Percentage limits per metric; a limit of 0 disables that check.
    ConfigWarn {
        cpu_limit: u32,
        ram_limit: u32,
        disk_limit: u32,
        swap_limit: u32,
    },
}

/// The credentials of the configured sink.
#[derive(Debug, PartialEq, Clone)]
pub enum LogCredentials {
    DiscordLog { key: String, channel: u64 },
    FileLog { path: String },
}

/// Which sink receives the output.
#[derive(Debug, Clone, PartialEq)]
pub enum LogType {
    Discord,
    File,
}

/// Failure to recognise the configured sink kind.
#[derive(Debug, PartialEq, Clone)]
pub enum ErrorLogType {
    TypeNonExistent,
}

/// Everything the agent needs to run: mode, cycle period, and sink.
#[derive(Debug, PartialEq, Clone)]
pub struct Config {
    /// What mode will be used, with its per-mode settings.
    pub mode: ConfigMode,
    /// How many seconds one cycle sleeps.
    pub interval: u32,
    /// Where the metrics are logged.
    pub log_type: LogType,
    /// The credentials for the logging method.
    pub log_credentials: LogCredentials,
}

/// Builds a config from already-validated parts.
pub fn create_config(mode: ConfigMode, interval: u32, log_type: LogType,
    log_credentials: LogCredentials) -> (c: Config)
    ensures
        c == (Config { mode, interval, log_type, log_credentials }),
{
    Config { mode, interval, log_type, log_credentials }
}

/// Whether the `mode` setting selects warn mode; anything else selects
/// interval mode. The match ignores ASCII case.
pub fn mode_selects_warn(mode: &str) -> (r: bool)
    ensures
        r == eq_ignore_ascii_case_seq(mode@, "warn"@),
{
    str_eq_ignore_ascii_case(mode, "warn")
}

/// Builds the warn mode from its four limits; limits above 100 percent are
/// rejected.
pub fn get_warn_mode(ram_limit: u32, cpu_limit: u32, disk_limit: u32, swap_limit: u32) -> (r:
    Option<ConfigMode>)
    ensures
        ram_limit <= 100 && cpu_limit <= 100 && disk_limit <= 100 && swap_limit <= 100 ==> r
            == Some(ConfigMode::ConfigWarn { cpu_limit, ram_limit, disk_limit, swap_limit }),
        ram_limit > 100 || cpu_limit > 100 || disk_limit > 100 || swap_limit > 100 ==> r is None,
{
    if ram_limit > 100 || cpu_limit > 100 || disk_limit > 100 || swap_limit > 100 {
        None
    } else {
        Some(ConfigMode::ConfigWarn { cpu_limit, ram_limit, disk_limit, swap_limit })
    }
}

/// Builds the interval mode from its six flags; any combination is valid.
pub fn get_interval_mode(ram: bool, cpu: bool, cpu_average: bool, system_uptime: bool, disk: bool,
    swap: bool) -> (m: ConfigMode)
    ensures
        m == (ConfigMode::ConfigInterval { ram, cpu, system_uptime, cpu_average, disk, swap }),
{
    ConfigMode::ConfigInterval { ram, cpu, system_uptime, cpu_average, disk, swap }
}

/// Reads a boolean setting's text: exactly "true" or "false".
pub fn parse_env_var_to_boolean(value: &str) -> (r: Option<bool>)
    ensures
        r == (if value@ == "true"@ {
            Some(true)
        } else if value@ == "false"@ {
            Some(false)
        } else {
            None::<bool>
        }),
{
    if str_eq(value, "true") {
        Some(true)
    } else if str_eq(value, "false") {
        Some(false)
    } else {
        None
    }
}

/// Maps the sink-kind setting to a `LogType`; unknown names are an error.
pub fn get_log_type(name: &str) -> (r: Result<LogType, ErrorLogType>)
    ensures
        r == (if name@ == "discord"@ {
            Ok::<LogType, ErrorLogType>(LogType::Discord)
        } else if name@ == "file"@ {
            Ok::<LogType, ErrorLogType>(LogType::File)
        } else {
            Err::<LogType, ErrorLogType>(ErrorLogType::TypeNonExistent)
        }),
{
    if str_eq(name, "discord") {
        Ok(LogType::Discord)
    } else if str_eq(name, "file") {
        Ok(LogType::File)
    } else {
        Err(ErrorLogType::TypeNonExistent)
    }
}

/// Given the logging type and the raw credential settings, builds the sink
/// credentials. For the chat sink the channel text must be a decimal
/// channel id; for the file sink the secret is the base directory path.
pub fn parse_credentials(log_type: &LogType, secret: String, channel_text: &str) -> (r: Option<
    LogCredentials>)
    ensures
        match r {
            Some(LogCredentials::DiscordLog { key, channel }) => {
                &&& *log_type == LogType::Discord
                &&& key@ == secret@
                &&& channel_text@.len() > 0
                &&& all_digits(channel_text@)
                &&& channel as int == digits_val(channel_text@)
            },
            Some(LogCredentials::FileLog { path }) => {
                &&& *log_type == LogType::File
                &&& path@ == secret@
            },
            None => {
                &&& *log_type == LogType::Discord
                &&& (channel_text@.len() == 0 || !all_digits(channel_text@) || digits_val(
                    channel_text@,
                ) > u64::MAX)
            },
        },
{
    match log_type {
        LogType::Discord => {
            match parse_u64(channel_text) {
                Some(channel) => Some(LogCredentials::DiscordLog { key: secret, channel }),
                None => None,
            }
        },
        LogType::File => Some(LogCredentials::FileLog { path: secret }),
    }
}

} // verus!
