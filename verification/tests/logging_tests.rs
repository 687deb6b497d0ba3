use rust_server::logging::discord::{load_warn_embed, parse_token_and_channel, send_interval_cycle,
    send_warn_cycle};
use rust_server::logging::file::{find_next_free_name, format_interval_metrics_text,
    format_warn_metrics_text, get_directory, log_interval_cycle, log_warn_cycle};
use rust_server::metrics::{DiskSpace, Snapshot};
use rust_server::metrics::interval::IntervalMetrics;
use rust_server::metrics::warn::{Warn, WarnMetrics};
use rust_server::parse_config::{Config, ConfigMode, LogCredentials, LogType};

fn test_snapshot() -> Snapshot {
    Snapshot {
        ram_total: 16_000_000,
        ram_used: 8_000_000,
        swap_total: 4_000_000,
        swap_used: 1_000_000,
        cpu_usage: 1337,
        load_one: 52,
        load_five: 48,
        load_fifteen: 45,
        uptime: 3600,
        disks: vec![DiskSpace { total: 5_000_000_000, available: 1_000_000_000 }],
    }
}

fn file_config(mode: ConfigMode) -> Config {
    Config {
        mode,
        interval: 10,
        log_type: LogType::File,
        log_credentials: LogCredentials::FileLog { path: "C:/random/path".into() },
    }
}

#[test]
fn parse_token_channel_parses() {
    let dummy_config = Config {
        mode: ConfigMode::ConfigWarn {
            cpu_limit: 0,
            ram_limit: 0,
            disk_limit: 0,
            swap_limit: 0,
        },
        interval: 0,
        log_type: LogType::Discord,
        log_credentials: LogCredentials::DiscordLog {
            key: "test".to_string(),
            channel: 098823098234,
        },
    };

    let (key, channel) = parse_token_and_channel(dummy_config);

    assert_eq!(key, "test".to_string());
    assert_eq!(channel, 098823098234);
}

#[test]
fn get_directory_gets_dir() {
    let config = Config {
        mode: ConfigMode::ConfigWarn {
            cpu_limit: 0,
            ram_limit: 0,
            swap_limit: 0,
            disk_limit: 0,
        },
        interval: 10,
        log_type: LogType::File,
        log_credentials: LogCredentials::FileLog { path: "C:/special/path".into() },
    };

    let path = get_directory(&config);

    assert_eq!(path, "C:/special/path");
}

#[test]
fn find_next_free_name_finds_a_name() {
    let dir_files = vec!["log_2.txt".to_string(), "log_1.txt".to_string()];
    let name = find_next_free_name("log", &dir_files);
    assert_eq!(name, "log_3.txt")
}

#[test]
fn find_next_free_name_empty_dir() {
    let dir_files: Vec<String> = vec![];
    assert_eq!(find_next_free_name("log", &dir_files), "log_1.txt");
}

#[test]
fn find_next_free_name_fills_gaps() {
    let dir_files = vec!["log_1.txt".to_string(), "log_3.txt".to_string()];
    assert_eq!(find_next_free_name("log", &dir_files), "log_2.txt");
}

#[test]
fn find_next_free_name_is_idempotent() {
    let dir_files = vec!["log_1.txt".to_string(), "log_2.txt".to_string(), "notes.md".to_string()];
    let first = find_next_free_name("log", &dir_files);
    let second = find_next_free_name("log", &dir_files);
    assert_eq!(first, "log_3.txt");
    assert_eq!(first, second);
}

#[test]
fn format_interval_metrics_text_formats_some() {
    let config = file_config(ConfigMode::ConfigInterval {
        ram: true,
        cpu: true,
        cpu_average: false,
        system_uptime: false,
        disk: false,
        swap: true,
    });
    let system = test_snapshot();
    let metrics = IntervalMetrics::new(&config, &system);

    let message = format_interval_metrics_text(&metrics, &system);

    let separated_metrics = message.lines().collect::<Vec<&str>>();
    let metric_messages = vec!["Used RAM:", "Used Swap:", "Used CPU:"];

    assert_eq!(separated_metrics.len(), 3);

    for (ind, &value) in separated_metrics.iter().enumerate() {
        println!("{} {}", value, metric_messages[ind]);
        assert_eq!(value.starts_with(metric_messages[ind]), true);
    }
}

#[test]
fn format_interval_metrics_text_formats_all() {
    let config = file_config(ConfigMode::ConfigInterval {
        ram: true,
        cpu: true,
        cpu_average: true,
        system_uptime: true,
        disk: true,
        swap: true,
    });
    let system = test_snapshot();
    let metrics = IntervalMetrics::new(&config, &system);

    let message = format_interval_metrics_text(&metrics, &system);

    let separated_metrics = message.lines().collect::<Vec<&str>>();
    let metric_messages = vec!["Used RAM:", "Used Swap:", "Used CPU:", "CPU Average:",
        "System Uptime:", "Used Disk Space:"];

    assert_eq!(separated_metrics.len(), 6);

    for (ind, &value) in separated_metrics.iter().enumerate() {
        assert_eq!(value.starts_with(metric_messages[ind]), true);
    }
}

#[test]
fn format_interval_metrics_exact_text() {
    let config = file_config(ConfigMode::ConfigInterval {
        ram: true,
        cpu: true,
        cpu_average: false,
        system_uptime: true,
        disk: false,
        swap: false,
    });
    let system = test_snapshot();
    let metrics = IntervalMetrics::new(&config, &system);
    let message = format_interval_metrics_text(&metrics, &system);
    assert_eq!(
        message,
        "Used RAM: 8000 MB out of 16000 MB\nUsed CPU: 13.37%\nSystem Uptime: 60 minutes"
    );
}

#[test]
fn format_warn_metrics_text_formats_some() {
    let system = test_snapshot();
    let config = file_config(ConfigMode::ConfigWarn {
        ram_limit: 40,
        cpu_limit: 45,
        disk_limit: 50,
        swap_limit: 34,
    });

    let mut metrics = WarnMetrics::new(&config);
    metrics.warnings = vec![Warn::HighRAM(5000), Warn::HighCPU(7000)];

    let message = format_warn_metrics_text(&metrics, &system);
    let separated_warns = message.lines().collect::<Vec<&str>>();
    let metric_messages = vec!["High RAM Usage:", "High CPU Usage:"];

    assert_eq!(separated_warns.len(), 2);

    for (ind, &val) in separated_warns.iter().enumerate() {
        assert_eq!(val.starts_with(metric_messages[ind]), true);
    }
}

#[test]
fn format_warn_metrics_exact_text() {
    let system = test_snapshot();
    let config = file_config(ConfigMode::ConfigWarn {
        ram_limit: 40,
        cpu_limit: 45,
        disk_limit: 50,
        swap_limit: 34,
    });
    let mut metrics = WarnMetrics::new(&config);
    metrics.warnings = vec![Warn::HighCPU(7000), Warn::HighSwap(8150)];
    let message = format_warn_metrics_text(&metrics, &system);
    assert_eq!(message, "High CPU Usage: 70.00%\nHigh Swap Usage: 81.50% out of 4000 MB");
}

#[test]
fn interval_cycle_delivers_even_all_absent() {
    // The degenerate all-disabled configuration still produces output every
    // cycle; it is just empty.
    let config = file_config(ConfigMode::ConfigInterval {
        ram: false,
        cpu: false,
        cpu_average: false,
        system_uptime: false,
        disk: false,
        swap: false,
    });
    let snap = test_snapshot();
    let mut metrics = IntervalMetrics::new(&config, &snap);
    let out = log_interval_cycle(&mut metrics, &snap);
    assert_eq!(out, "");
    let msg = send_interval_cycle(&mut metrics, &snap);
    assert_eq!(msg.title, "Server Interval Metrics");
    assert_eq!(msg.color, (0, 190, 219));
    assert_eq!(msg.fields.len(), 0);
}

#[test]
fn warn_cycle_suppresses_empty_batches() {
    let config = file_config(ConfigMode::ConfigWarn {
        ram_limit: 80,
        cpu_limit: 45,
        disk_limit: 0,
        swap_limit: 0,
    });
    let mut metrics = WarnMetrics::new(&config);
    let mut snap = test_snapshot();
    snap.ram_total = 100;
    snap.ram_used = 10;
    snap.cpu_usage = 1000;
    assert_eq!(log_warn_cycle(&mut metrics, &snap), None);
    assert!(send_warn_cycle(&mut metrics, &snap).is_none());
}

#[test]
fn warn_cycle_delivers_single_breach() {
    // RAM at 81% against an 80% limit, CPU at 10% against 45%: exactly one
    // alert is delivered.
    let config = file_config(ConfigMode::ConfigWarn {
        ram_limit: 80,
        cpu_limit: 45,
        disk_limit: 0,
        swap_limit: 0,
    });
    let mut metrics = WarnMetrics::new(&config);
    let mut snap = test_snapshot();
    snap.ram_total = 100;
    snap.ram_used = 81;
    snap.cpu_usage = 1000;
    let out = log_warn_cycle(&mut metrics, &snap).unwrap();
    assert_eq!(metrics.warnings, vec![Warn::HighRAM(8100)]);
    assert_eq!(out.lines().count(), 1);
    assert!(out.starts_with("High RAM Usage: 81.00%"));
}

#[test]
fn warn_scenario_end_to_end() {
    // WarnMode{ram:40, cpu:45, disk:50, swap:34}; RAM used at 50% of total,
    // CPU at 10%: the cycle delivers exactly the RAM alert and nothing else.
    let config = file_config(ConfigMode::ConfigWarn {
        ram_limit: 40,
        cpu_limit: 45,
        disk_limit: 50,
        swap_limit: 34,
    });
    let mut metrics = WarnMetrics::new(&config);
    let snap = Snapshot {
        ram_total: 1000,
        ram_used: 500,
        swap_total: 1000,
        swap_used: 0,
        cpu_usage: 1000,
        load_one: 0,
        load_five: 0,
        load_fifteen: 0,
        uptime: 0,
        disks: vec![],
    };
    let out = log_warn_cycle(&mut metrics, &snap).unwrap();
    assert_eq!(metrics.warnings, vec![Warn::HighRAM(5000)]);
    assert_eq!(out, "High RAM Usage: 50.00% out of 1 MB");

    let mut chat_metrics = WarnMetrics::new(&config);
    let msg = send_warn_cycle(&mut chat_metrics, &snap).unwrap();
    assert_eq!(msg.title, "Server Warn Metrics");
    assert_eq!(msg.color, (197, 0, 0));
    assert_eq!(msg.fields.len(), 1);
    assert_eq!(msg.fields[0].label, "RAM Limit Surpassed");
    assert_eq!(msg.fields[0].value, "50.00% out of 1 MB");
    assert_eq!(msg.fields[0].inline, false);
}

#[test]
fn load_warn_embed_maps_each_warning() {
    let config = file_config(ConfigMode::ConfigWarn {
        ram_limit: 1,
        cpu_limit: 1,
        disk_limit: 1,
        swap_limit: 1,
    });
    let mut metrics = WarnMetrics::new(&config);
    metrics.warnings = vec![Warn::HighCPU(9700), Warn::HighDisk(9600)];
    let snap = test_snapshot();
    let fields = load_warn_embed(&metrics, &snap);
    assert_eq!(fields.len(), 2);
    assert_eq!(fields[0].label, "CPU Limit Surpassed");
    assert_eq!(fields[0].value, "97.00%");
    assert_eq!(fields[1].label, "Disk Limit Surpassed");
    assert_eq!(fields[1].value, "96.00%");
}

#[test]
fn interval_chat_message_carries_all_fields() {
    let config = file_config(ConfigMode::ConfigInterval {
        ram: true,
        cpu: true,
        cpu_average: true,
        system_uptime: true,
        disk: true,
        swap: true,
    });
    let snap = test_snapshot();
    let mut metrics = IntervalMetrics::new(&config, &snap);
    let msg = send_interval_cycle(&mut metrics, &snap);
    let labels: Vec<&str> = msg.fields.iter().map(|f| f.label.as_str()).collect();
    assert_eq!(
        labels,
        vec!["Used RAM", "Used Swap", "Used CPU", "System Uptime", "Used System Space:",
            "Average Load"]
    );
    assert_eq!(msg.fields[0].value, "8000 MB out of 16000 MB");
    assert_eq!(msg.fields[2].value, "13.37%");
    assert_eq!(msg.fields[3].value, "60 minutes");
    assert_eq!(msg.fields[4].value, "4000 MB");
    assert_eq!(msg.fields[5].value, "One minute: 0.52%, Five minutes: 0.48%, Fiveteen minutes: 0.45%");
}
