use std::collections::HashMap;

use base64ct::{Base64UrlUnpadded, Encoding};
use scanopy::daemons::install::{
    build_install_artifacts, encode_msi_filename, escape_msi_value, install_args, install_config_pairs, quote_posix,
    quote_powershell, trim_trailing_slashes, AdvancedInstallConfig, DaemonMode, DaemonRecord, InstallArtifacts,
};

type Advanced = AdvancedInstallConfig;

fn daemon(mode: DaemonMode, url: &str) -> DaemonRecord {
    DaemonRecord { name: "edge-01".to_string(), mode, url: url.to_string() }
}

fn artifacts(public_url: &str, d: &DaemonRecord, api_key: &str, adv: Option<&Advanced>) -> InstallArtifacts {
    build_install_artifacts(public_url, d, api_key, adv)
}

fn msi_name(public_url: &str, d: &DaemonRecord, adv: Option<&Advanced>) -> (String, Vec<String>) {
    let adv = copy_config(adv);
    let url = trim_trailing_slashes(public_url);
    encode_msi_filename(&install_config_pairs(&install_args(&url, d, ""), &adv))
}

fn copy_config(c: Option<&Advanced>) -> Advanced {
    match c {
        Some(c) => Advanced {
            log_level: c.log_level.clone(),
            log_file: c.log_file.clone(),
            heartbeat_interval: c.heartbeat_interval,
            bind_address: c.bind_address.clone(),
            interfaces: c.interfaces.clone(),
            allow_self_signed_certs: c.allow_self_signed_certs,
            accept_invalid_scan_certs: c.accept_invalid_scan_certs,
        },
        None => Advanced::default(),
    }
}

fn linux_command(a: &InstallArtifacts) -> String {
    a.commands.iter().find(|c| c.platform == "linux").unwrap().command.clone()
}

fn shell_split(command: &str) -> Vec<String> {
    let mut tokens = Vec::new();
    let mut current = String::new();
    let mut in_quotes = false;
    let mut has_token = false;
    let mut chars = command.chars().peekable();
    while let Some(c) = chars.next() {
        match c {
            '\'' => {
                in_quotes = !in_quotes;
                has_token = true;
            }
            '\\' if in_quotes => {
                if let Some(next) = chars.next() {
                    current.push(next);
                }
            }
            c if c.is_whitespace() && !in_quotes => {
                if has_token {
                    tokens.push(std::mem::take(&mut current));
                    has_token = false;
                }
            }
            c => {
                current.push(c);
                has_token = true;
            }
        }
    }
    if has_token {
        tokens.push(current);
    }
    tokens
}

fn decode_msi_filename(filename: &str) -> HashMap<String, String> {
    let blob = filename
        .strip_prefix("scanopy-daemon-")
        .and_then(|s| s.strip_suffix(".msi"))
        .expect("scanopy-daemon-<blob>.msi");
    let query = String::from_utf8(Base64UrlUnpadded::decode_vec(blob).unwrap()).unwrap();
    query
        .split('&')
        .filter_map(|p| p.split_once('='))
        .map(|(k, v)| (k.to_string(), urlencoding::decode(v).unwrap().into_owned()))
        .collect()
}

#[test]
fn emitted_command_parses_back_into_the_same_config() {
    let config = Advanced {
        log_level: Some("debug".to_string()),
        log_file: Some("/var/log/my daemon/d.log".to_string()),
        heartbeat_interval: Some(45),
        bind_address: Some("10.0.0.5".to_string()),
        interfaces: Some(vec!["eth0".to_string(), "Ethernet 2".to_string()]),
        allow_self_signed_certs: Some(true),
        accept_invalid_scan_certs: Some(false),
    };
    let a = artifacts("https://app.scanopy.net", &daemon(DaemonMode::DaemonPoll, ""), "sk_test", Some(&config));
    let linux = linux_command(&a);
    let install = linux.split("&& sudo ").nth(1).unwrap();
    let tokens = shell_split(install);
    assert_eq!(&tokens[..2], &["scanopy-daemon".to_string(), "install".to_string()]);
    let mut args: HashMap<String, String> = HashMap::new();
    for chunk in tokens[2..].chunks(2) {
        args.insert(chunk[0].clone(), chunk[1].clone());
    }
    assert_eq!(args.get("--log-level").map(String::as_str), Some("debug"));
    assert_eq!(args.get("--log-file").map(String::as_str), Some("/var/log/my daemon/d.log"));
    assert_eq!(args.get("--heartbeat-interval").map(String::as_str), Some("45"));
    assert_eq!(args.get("--bind-address").map(String::as_str), Some("10.0.0.5"));
    assert_eq!(args.get("--interfaces").map(String::as_str), Some("eth0,Ethernet 2"));
    assert_eq!(args.get("--allow-self-signed-certs").map(String::as_str), Some("true"));
    assert_eq!(args.get("--accept-invalid-scan-certs").map(String::as_str), Some("false"));
    assert_eq!(args.get("--daemon-api-key").map(String::as_str), Some("sk_test"));
    assert_eq!(args.get("--server-url").map(String::as_str), Some("https://app.scanopy.net"));
}

/// The advanced settings a request body carries: only the fields a client
/// may set are read; anything else in the body is ignored.
fn advanced_from_json(body: &str) -> Advanced {
    let v: serde_json::Value = serde_json::from_str(body).unwrap();
    let text = |k: &str| v.get(k).and_then(|x| x.as_str()).map(String::from);
    Advanced {
        log_level: text("log_level"),
        log_file: text("log_file"),
        heartbeat_interval: v.get("heartbeat_interval").and_then(|x| x.as_u64()),
        bind_address: text("bind_address"),
        interfaces: v.get("interfaces").and_then(|x| x.as_array()).map(|a| {
            a.iter().filter_map(|i| i.as_str().map(String::from)).collect()
        }),
        allow_self_signed_certs: v.get("allow_self_signed_certs").and_then(|x| x.as_bool()),
        accept_invalid_scan_certs: v.get("accept_invalid_scan_certs").and_then(|x| x.as_bool()),
    }
}

#[test]
fn client_supplied_config_cannot_override_server_controlled_fields() {
    let body = r#"{
        "log_level": "trace",
        "daemon_api_key": "attacker-key",
        "server_url": "https://evil.example",
        "network_id": "00000000-0000-0000-0000-000000000001",
        "name": "impostor"
    }"#;
    let config = advanced_from_json(body);
    assert_eq!(config.log_level.as_deref(), Some("trace"));
    let a = artifacts("https://app.scanopy.net", &daemon(DaemonMode::DaemonPoll, ""), "real-key", Some(&config));
    let linux = linux_command(&a);
    assert!(linux.contains("--daemon-api-key real-key"));
    assert!(linux.contains("--log-level trace"));
    assert!(!linux.contains("evil.example"));
    assert!(!linux.contains("attacker-key"));
    assert!(!linux.contains("impostor"));
    let msi = decode_msi_filename(&a.msi_filename);
    assert_eq!(msi.get("name").map(String::as_str), Some("edge-01"));
    assert_eq!(msi.get("url").map(String::as_str), Some("https://app.scanopy.net"));
}

#[test]
fn msi_filename_carries_advanced_config() {
    let config = Advanced {
        log_level: Some("debug".to_string()),
        heartbeat_interval: Some(45),
        interfaces: Some(vec!["eth0".to_string(), "Ethernet 2".to_string()]),
        allow_self_signed_certs: Some(true),
        ..Default::default()
    };
    let (filename, omitted) = msi_name("https://app.scanopy.net", &daemon(DaemonMode::DaemonPoll, ""), Some(&config));
    assert!(omitted.is_empty(), "unexpectedly dropped {omitted:?}");
    assert!(filename.len() <= 255);
    let fields = decode_msi_filename(&filename);
    assert_eq!(fields.get("loglevel").map(String::as_str), Some("debug"));
    assert_eq!(fields.get("heartbeat").map(String::as_str), Some("45"));
    assert_eq!(fields.get("interfaces").map(String::as_str), Some("eth0,Ethernet 2"));
    assert_eq!(fields.get("allowselfsigned").map(String::as_str), Some("true"));
}

#[test]
fn oversized_msi_config_is_truncated_and_reported() {
    let config = Advanced {
        log_level: Some("trace".to_string()),
        log_file: Some(r"C:\ProgramData\Scanopy\daemon\logs\scanopy-daemon-verbose.log".to_string()),
        heartbeat_interval: Some(300),
        bind_address: Some("255.255.255.255".to_string()),
        interfaces: Some(vec![
            "Ethernet Adapter Multiplexor Driver".to_string(),
            "Wi-Fi 6 AX201 160MHz".to_string(),
            "vEthernet (Default Switch)".to_string(),
        ]),
        allow_self_signed_certs: Some(true),
        accept_invalid_scan_certs: Some(true),
    };
    let (filename, omitted) = msi_name(
        "https://scanopy.some-quite-long-customer-subdomain.example.com:60072",
        &daemon(DaemonMode::DaemonPoll, ""),
        Some(&config),
    );
    assert!(filename.len() <= 255, "MSI filename is {} chars, over the 255 limit", filename.len());
    assert!(!omitted.is_empty(), "a config this large cannot fit, so something must be reported as dropped");
    let fields = decode_msi_filename(&filename);
    assert_eq!(fields.get("mode").map(String::as_str), Some("daemon_poll"));
    assert_eq!(fields.get("name").map(String::as_str), Some("edge-01"));
    for key in &omitted {
        assert!(!fields.contains_key(key), "{key} was reported dropped but is present in the filename");
    }
}

#[test]
fn daemon_poll_command_dials_the_server_serverpoll_does_not() {
    let dp = artifacts("https://app.scanopy.net/", &daemon(DaemonMode::DaemonPoll, ""), "sk_test", None);
    let linux = linux_command(&dp);
    assert!(linux.contains("--server-url https://app.scanopy.net"));
    assert!(linux.contains("--daemon-api-key sk_test"));

    let sp = artifacts("https://app.scanopy.net", &daemon(DaemonMode::ServerPoll, "https://edge.corp:60073"), "sk_test", None);
    let sp_linux = linux_command(&sp);
    assert!(!sp_linux.contains("--server-url"));
    assert!(sp_linux.contains("--daemon-api-key sk_test"));
}

#[test]
fn msi_filename_is_one_base64_segment_that_round_trips() {
    let (name, _) = msi_name("https://app.scanopy.net:60072", &daemon(DaemonMode::DaemonPoll, ""), None);
    assert!(name.starts_with("scanopy-daemon-"));
    assert!(name.ends_with(".msi"));
    assert!(!name.contains("~~"));
    let fields = decode_msi_filename(&name);
    assert_eq!(fields.get("mode").map(String::as_str), Some("daemon_poll"));
    assert_eq!(fields.get("name").map(String::as_str), Some("edge-01"));
    assert_eq!(fields.get("url").map(String::as_str), Some("https://app.scanopy.net:60072"));

    let sp = decode_msi_filename(&msi_name("https://app.scanopy.net", &daemon(DaemonMode::ServerPoll, "https://edge.corp"), None).0);
    assert_eq!(sp.get("mode").map(String::as_str), Some("server_poll"));
    assert!(!sp.contains_key("url"));
}

#[test]
fn msi_filename_is_encoded_for_rename_prefill() {
    let a = artifacts("https://app.scanopy.net", &daemon(DaemonMode::ServerPoll, "https://edge.corp"), "sk", None);
    assert!(a.msi_filename.starts_with("scanopy-daemon-"));
    assert!(a.msi_filename.ends_with(".msi"));
}

#[test]
fn install_command_omits_name() {
    let a = artifacts("https://app.scanopy.net", &daemon(DaemonMode::DaemonPoll, ""), "sk", None);
    assert!(!linux_command(&a).contains("--name"));
}

#[test]
fn server_poll_port_comes_from_the_daemon_url() {
    let d = daemon(DaemonMode::ServerPoll, "https://edge.corp:60073");
    let args = install_args("https://app.scanopy.net", &d, "k");
    assert_eq!(args.daemon_port, Some(60073));
    assert_eq!(args.server_url, None);
    let d2 = daemon(DaemonMode::ServerPoll, "https://edge.corp");
    assert_eq!(install_args("", &d2, "k").daemon_port, Some(443));
    let d3 = daemon(DaemonMode::ServerPoll, "not a url");
    assert_eq!(install_args("", &d3, "k").daemon_port, None);
    let dp = daemon(DaemonMode::DaemonPoll, "");
    assert_eq!(install_args("", &dp, "k").server_url, None);
}

#[test]
fn escaping_and_quoting_examples() {
    assert_eq!(escape_msi_value("a%b&c=d"), "a%25b%26c%3Dd");
    assert_eq!(escape_msi_value("Ethernet 2"), "Ethernet 2");
    assert_eq!(escape_msi_value("é"), "%C3%A9");
    assert_eq!(escape_msi_value("€"), "%E2%82%AC");
    assert_eq!(quote_posix("eth0"), "eth0");
    assert_eq!(quote_posix("my daemon"), "'my daemon'");
    assert_eq!(quote_posix("it's"), r"'it'\''s'");
    assert_eq!(quote_posix(""), "''");
    assert_eq!(quote_powershell("it's"), "'it''s'");
    assert_eq!(quote_powershell("a,b=c@d+e"), "a,b=c@d+e");
}

#[test]
fn trailing_slashes_are_trimmed() {
    assert_eq!(trim_trailing_slashes("https://x.y///"), "https://x.y");
    assert_eq!(trim_trailing_slashes("///"), "");
    assert_eq!(trim_trailing_slashes("a/b"), "a/b");
}

#[test]
fn every_platform_gets_a_command() {
    let a = artifacts("https://app.scanopy.net", &daemon(DaemonMode::DaemonPoll, ""), "sk", None);
    let platforms: Vec<&str> = a.commands.iter().map(|c| c.platform.as_str()).collect();
    assert_eq!(platforms, vec!["linux", "macos", "freebsd", "windows"]);
    let windows = &a.commands[3].command;
    assert!(windows.starts_with("Invoke-WebRequest -Uri \""));
    assert!(windows.contains(".\\scanopy-daemon-windows-amd64.exe install --server-url https://app.scanopy.net --daemon-api-key sk"));
    assert_eq!(a.commands[0].command, a.commands[1].command);
}

/// A POSIX shell's reading of one word.
fn posix_read(word: &str) -> String {
    let mut out = String::new();
    let mut in_quotes = false;
    let mut chars = word.chars();
    while let Some(c) = chars.next() {
        match c {
            '\'' => in_quotes = !in_quotes,
            '\\' if !in_quotes => {
                if let Some(n) = chars.next() {
                    out.push(n);
                }
            }
            c => out.push(c),
        }
    }
    out
}

/// PowerShell's reading of one word.
fn powershell_read(word: &str) -> String {
    let mut out = String::new();
    let mut in_quotes = false;
    let mut chars = word.chars().peekable();
    while let Some(c) = chars.next() {
        if c == '\'' {
            if in_quotes && chars.peek() == Some(&'\'') {
                chars.next();
                out.push('\'');
            } else {
                in_quotes = !in_quotes;
            }
        } else {
            out.push(c);
        }
    }
    out
}

#[test]
fn quoted_values_read_back() {
    for v in ["eth0", "Ethernet 2", "it's", "''", "", "a\\b", "C:\\Program Files\\x", "'quoted' value"] {
        assert_eq!(posix_read(&quote_posix(v)), v, "posix {v}");
        assert_eq!(powershell_read(&quote_powershell(v)), v, "powershell {v}");
    }
}

#[test]
fn escaped_msi_values_decode_back() {
    for value in ["a%b&c=d", "Ethernet 2", "é€ 日本", "100%", "=&=", ""] {
        let escaped = escape_msi_value(value);
        assert!(!escaped.contains('&'));
        assert!(!escaped.contains('='));
        assert_eq!(urlencoding::decode(&escaped).unwrap(), value);
    }
}
