use rust_server::parse_config::{create_config, get_interval_mode, get_log_type, get_warn_mode,
    mode_selects_warn, parse_credentials, parse_env_var_to_boolean, Config, ConfigMode,
    ErrorLogType, LogCredentials, LogType};
use rust_server::text::{parse_u64, u64_to_string, percent_to_string};

#[test]
fn create_config_creates() {
    let mode = get_warn_mode(20, 20, 10, 15).unwrap();
    let config = create_config(
        mode,
        10,
        LogType::Discord,
        LogCredentials::DiscordLog { key: "special_secret_key".to_string(), channel: 123456789 },
    );
    let test_config = Config {
        mode: ConfigMode::ConfigWarn {
            ram_limit: 20,
            cpu_limit: 20,
            disk_limit: 10,
            swap_limit: 15,
        },
        interval: 10,
        log_type: LogType::Discord,
        log_credentials: LogCredentials::DiscordLog {
            key: "special_secret_key".to_string(),
            channel: 123456789,
        },
    };
    assert_eq!(config, test_config)
}

#[test]
fn parse_mode_parses_warn() {
    assert!(mode_selects_warn("warn"));
    let warn_mode = get_warn_mode(20, 20, 10, 5).unwrap();
    let test_mode = ConfigMode::ConfigWarn {
        cpu_limit: 20,
        ram_limit: 20,
        disk_limit: 10,
        swap_limit: 5,
    };
    assert_eq!(warn_mode, test_mode);
}

#[test]
fn parse_mode_parses_interval() {
    assert!(!mode_selects_warn("interval"));
    let interval_mode = get_interval_mode(true, true, true, true, true, false);
    let test_mode = ConfigMode::ConfigInterval {
        ram: true,
        cpu: true,
        cpu_average: true,
        system_uptime: true,
        disk: true,
        swap: false,
    };
    assert_eq!(interval_mode, test_mode);
}

#[test]
fn mode_name_match_ignores_ascii_case() {
    assert!(mode_selects_warn("WARN"));
    assert!(mode_selects_warn("Warn"));
    assert!(!mode_selects_warn("warning"));
    assert!(!mode_selects_warn(""));
}

#[test]
fn warn_mode_rejects_limits_over_100() {
    assert_eq!(get_warn_mode(101, 20, 20, 20), None);
    assert_eq!(get_warn_mode(20, 101, 20, 20), None);
    assert_eq!(get_warn_mode(20, 20, 101, 20), None);
    assert_eq!(get_warn_mode(20, 20, 20, 101), None);
    assert!(get_warn_mode(100, 100, 100, 100).is_some());
    assert!(get_warn_mode(0, 0, 0, 0).is_some());
}

#[test]
fn get_log_type_gets_discord() {
    let log_type = get_log_type("discord").unwrap();
    assert_eq!(log_type, LogType::Discord)
}

#[test]
fn get_log_type_gets_file() {
    let log_type = get_log_type("file").unwrap();
    assert_eq!(log_type, LogType::File)
}

#[test]
fn get_log_type_wrong_var() {
    let log_type = get_log_type("will_not_exist");
    match log_type {
        Ok(_) => panic!("Should've been an error"),
        Err(err) => assert_eq!(err, ErrorLogType::TypeNonExistent),
    }
}

#[test]
fn parse_credentials_parses() {
    let discord_credentials =
        parse_credentials(&LogType::Discord, "my_special_key".to_string(), "123456789").unwrap();
    let custom_discord_credentials = LogCredentials::DiscordLog {
        key: "my_special_key".to_string(),
        channel: 123456789,
    };
    assert_eq!(discord_credentials, custom_discord_credentials);
}

#[test]
fn parse_credentials_bad_channel_is_none() {
    assert_eq!(parse_credentials(&LogType::Discord, "k".to_string(), "will not work"), None);
    assert_eq!(parse_credentials(&LogType::Discord, "k".to_string(), ""), None);
}

#[test]
fn parse_credentials_file_takes_path() {
    let creds = parse_credentials(&LogType::File, "C:/special/path".to_string(), "").unwrap();
    assert_eq!(creds, LogCredentials::FileLog { path: "C:/special/path".to_string() });
}

#[test]
fn parse_env_var_to_boolean_parses() {
    assert_eq!(parse_env_var_to_boolean("true"), Some(true));
    assert_eq!(parse_env_var_to_boolean("false"), Some(false));
    assert_eq!(parse_env_var_to_boolean("yes"), None);
    assert_eq!(parse_env_var_to_boolean(""), None);
}

#[test]
fn parse_u64_parses_decimals() {
    assert_eq!(parse_u64("0"), Some(0));
    assert_eq!(parse_u64("123456789"), Some(123456789));
    assert_eq!(parse_u64("18446744073709551615"), Some(u64::MAX));
}

#[test]
fn parse_u64_rejects_bad_input() {
    assert_eq!(parse_u64(""), None);
    assert_eq!(parse_u64("12a"), None);
    assert_eq!(parse_u64("-5"), None);
    assert_eq!(parse_u64("18446744073709551616"), None);
}

#[test]
fn u64_to_string_renders_decimals() {
    assert_eq!(u64_to_string(0), "0");
    assert_eq!(u64_to_string(7), "7");
    assert_eq!(u64_to_string(1234567890), "1234567890");
    assert_eq!(u64_to_string(u64::MAX), "18446744073709551615");
}

#[test]
fn percent_to_string_renders_two_decimals() {
    assert_eq!(percent_to_string(5025), "50.25");
    assert_eq!(percent_to_string(5), "0.05");
    assert_eq!(percent_to_string(10000), "100.00");
    assert_eq!(percent_to_string(0), "0.00");
}
