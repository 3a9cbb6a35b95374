use yourcloud_client::cli::{
    handle_command, report_validation, show_configuration, show_status, validate_configuration, Cli, CliAction,
    Commands, FileFacts, Line, Report, StorageFacts,
};
use yourcloud_client::config::{Config, ValidationError};
use yourcloud_client::disk::DiskSpaceError;
use yourcloud_client::gib::Gib;
use yourcloud_client::storage::StorageState;

fn config() -> Config {
    Config {
        node_id: "node".to_string(),
        auth_token: "token".to_string(),
        storage_path: "/data".to_string(),
        max_storage_gib: Gib { bits: 2.0f64.to_bits() },
        ws_url: "ws://local".to_string(),
    }
}

fn bare() -> Config {
    Config {
        node_id: String::new(),
        auth_token: String::new(),
        storage_path: "/data".to_string(),
        max_storage_gib: Gib { bits: 2.0f64.to_bits() },
        ws_url: String::new(),
    }
}

fn shown(report: &Report) -> Vec<String> {
    report
        .lines
        .iter()
        .map(|line| match line {
            Line::Text(t) => t.clone(),
            Line::Amount(t, amount) => format!("{}{:.2} GiB", t, f64::from_bits(amount.bits)),
            Line::FreeSpace(bytes) => format!("free {}", bytes),
            Line::Shortfall(amount, bytes) => format!("short {} {}", f64::from_bits(amount.bits), bytes),
            Line::UsedSpace(used, max) => format!("used {} {}", used, max),
            Line::MaxSpace(bytes) => format!("max {}", bytes),
        })
        .collect()
}

#[test]
fn commands_become_actions() {
    for (command, action) in [
        (Commands::Start, CliAction::Proceed),
        (Commands::Status, CliAction::ShowStatus),
        (Commands::Setup, CliAction::InteractiveSetup),
        (Commands::Validate, CliAction::ValidateConfiguration),
        (Commands::Config, CliAction::ShowConfiguration),
    ] {
        assert_eq!(handle_command(Cli { command }), action);
    }
}

#[test]
fn status_of_a_ready_node() {
    let state = StorageState { current_used_space_bytes: 10, max_storage_bytes: 20, current_chunk_count: 3 };
    let facts = StorageFacts { path_exists: true, available: Ok(1 << 31), usage: Some(Ok(state)) };
    let report = show_status(&Ok((config(), facts)));
    assert!(report.outcome.is_ok());
    assert_eq!(
        shown(&report),
        vec![
            "=== Project YourCloud Storage Client Status ===",
            "Configuration loaded successfully",
            "Node ID: node",
            "Auth Token: Configured",
            "Storage Path: \"/data\"",
            "Max Storage: 2.00 GiB",
            "WebSocket URL: ws://local",
            "Storage path exists",
            "free 2147483648",
            "Sufficient disk space for configured storage",
            "",
            "=== Current Storage Usage ===",
            "used 10 20",
            "max 20",
            "  Stored Chunks: 3",
            "",
            "Node is ready to start",
            "Run 'yourcloud_client start' to begin daemon mode",
        ]
    );
}

#[test]
fn status_of_a_bare_node() {
    let facts = StorageFacts { path_exists: false, available: Ok((1 << 31) - 1), usage: None };
    let report = show_status(&Ok((bare(), facts)));
    assert!(report.outcome.is_ok());
    assert_eq!(
        shown(&report),
        vec![
            "=== Project YourCloud Storage Client Status ===",
            "Configuration loaded successfully",
            "Node ID: Not configured",
            "Auth Token: Not configured",
            "Storage Path: \"/data\"",
            "Max Storage: 2.00 GiB",
            "WebSocket URL: Default (wss://wss.project-yourcloud.me)",
            "Storage path does not exist (will be created on start)",
            "free 2147483647",
            "Insufficient disk space for configured storage",
            "short 2 2147483647",
            "",
            "Node is NOT ready to start",
            "Missing node_id and/or auth_token",
            "Run 'yourcloud_client setup' to configure, register through the web interface",
        ]
    );
}

#[test]
fn status_tells_what_could_not_be_found_out() {
    let error = DiskSpaceError::NoDisk { storage_path: "/data".to_string() };
    let message = error.message();
    let facts = StorageFacts { path_exists: true, available: Err(error), usage: Some(Err("denied".to_string())) };
    let lines = shown(&show_status(&Ok((config(), facts))));
    assert!(lines.contains(&format!("Could not check disk space: {}", message)));
    assert!(lines.contains(&"Could not analyze current storage: denied".to_string()));
}

#[test]
fn status_without_a_configuration_fails() {
    let report = show_status(&Err("missing".to_string()));
    assert_eq!(report.outcome, Err("missing".to_string()));
    assert_eq!(
        shown(&report),
        vec![
            "=== Project YourCloud Storage Client Status ===",
            "Failed to load configuration: missing",
            "Run 'yourcloud_client setup' to create initial configuration",
        ]
    );
}

#[test]
fn valid_configuration_is_confirmed() {
    let report = validate_configuration(&Ok((config(), Ok(1 << 31))), "2");
    assert!(report.outcome.is_ok());
    assert_eq!(
        shown(&report),
        vec![
            "=== Configuration Validation ===",
            "Configuration file loaded successfully",
            "Configuration is valid",
            "Sufficient disk space available",
            "Node credentials configured",
            "",
            "Configuration validation completed successfully",
        ]
    );
    let report = validate_configuration(&Ok((bare(), Ok(1 << 31))), "2");
    assert!(report.outcome.is_ok());
    assert_eq!(
        shown(&report)[4..],
        [
            "Node ID and/or Auth Token not configured",
            "Node will not be able to connect to backend without these credentials",
            "",
            "Configuration validation completed successfully",
        ]
    );
}

#[test]
fn invalid_configuration_is_told() {
    let mut c = config();
    c.node_id = "a b".to_string();
    let report = validate_configuration(&Ok((c, Ok(1 << 31))), "2");
    let message = "node_id contains invalid characters (only alphanumeric, hyphens, and underscores allowed)";
    assert_eq!(report.outcome, Err(message.to_string()));
    assert_eq!(shown(&report)[2], format!("Configuration validation failed: {}", message));
    assert_eq!(shown(&report).len(), 3);
}

#[test]
fn too_little_space_fails_the_validation() {
    let report = validate_configuration(&Ok((config(), Ok(5))), "2");
    assert_eq!(report.outcome, Err("Not enough disk space to meet configured max_storage_gib".to_string()));
    assert_eq!(
        shown(&report)[3..],
        [
            "Insufficient disk space for configured max_storage_gib",
            "Available: 5 bytes, Required: 2147483648 bytes",
        ]
    );
}

#[test]
fn unknown_space_fails_the_validation() {
    let error = DiskSpaceError::NotResolved { storage_path: "/data".to_string() };
    let message = error.message();
    let report = validate_configuration(&Ok((config(), Err(error))), "2");
    assert_eq!(report.outcome, Err(message.clone()));
    assert_eq!(shown(&report)[3..], [format!("Could not verify available disk space: {}", message)]);
}

#[test]
fn validation_without_a_configuration_fails() {
    let report = validate_configuration(&Err("missing".to_string()), "0");
    assert_eq!(report.outcome, Err("missing".to_string()));
    assert_eq!(
        shown(&report),
        vec!["=== Configuration Validation ===", "Failed to load configuration: missing"]
    );
}

#[test]
fn verdict_decides_the_validation() {
    let verdict = Err(ValidationError::TooMuchStorage { max_storage_gib: Gib { bits: 2e6f64.to_bits() } });
    let report = report_validation(&config(), &verdict, &Ok(0), "2000000");
    assert_eq!(
        report.outcome,
        Err("max_storage_gib is too large: 2000000 GiB (maximum allowed: 1048576 GiB)".to_string())
    );
    assert!(report_validation(&config(), &Ok(()), &Ok(1 << 31), "2").outcome.is_ok());
}

#[test]
fn configuration_file_is_shown() {
    let dir = Some("/c".to_string());
    let facts = FileFacts { contents: Ok("node_id = \"node\"\n".to_string()), parsed: Ok(config()) };
    let report = show_configuration(&dir, &Some(facts));
    assert!(report.outcome.is_ok());
    assert_eq!(
        shown(&report),
        vec![
            "=== Configuration Information ===",
            "Config file path: \"/c/Project_YourCloud/config.toml\"",
            "Configuration file exists",
            "",
            "Configuration file contents:",
            "---",
            "node_id = \"node\"\n",
            "---",
            "",
            "Parsed configuration:",
            "  Node ID: node",
            "  Auth Token: Configured",
            "  Storage Path: \"/data\"",
            "  Max Storage: 2.00 GiB",
            "  WebSocket URL: ws://local",
        ]
    );
}

#[test]
fn missing_configuration_file_is_told() {
    let report = show_configuration(&None, &None);
    assert!(report.outcome.is_ok());
    assert_eq!(
        shown(&report)[1..],
        [
            "Config file path: \"/etc/Project_YourCloud/config.toml\"",
            "Configuration file does not exist",
            "Run 'yourcloud_client setup' to create initial configuration",
        ]
    );
}

#[test]
fn unreadable_configuration_file_is_told() {
    let facts = FileFacts { contents: Err("denied".to_string()), parsed: Err("x".to_string()) };
    let report = show_configuration(&None, &Some(facts));
    assert_eq!(report.outcome, Err("denied".to_string()));
    assert_eq!(
        shown(&report)[2..],
        ["Configuration file exists", "Failed to read configuration file: denied"]
    );
    let facts = FileFacts { contents: Ok(String::new()), parsed: Err("bad".to_string()) };
    let report = show_configuration(&None, &Some(facts));
    assert!(report.outcome.is_ok());
    assert_eq!(shown(&report).last().unwrap(), "Failed to parse configuration: bad");
}
