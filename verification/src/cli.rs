//! The commands of the command line: what they print and what they ask.
//!
//! A line that shows an amount in GiB holds the amount itself; how its decimals are written is
//! left to whoever prints it.

use crate::config;
use crate::config::{Config, ValidationError};
use crate::disk::DiskSpaceError;
use crate::gib::Gib;
use crate::path;
use crate::storage::StorageState;
use crate::text;
use vstd::prelude::*;
use vstd::string::*;

verus! {

/// The command line.
#[derive(Clone, Copy, Debug, PartialEq, Eq, Structural)]
pub struct Cli {
    pub command: Commands,
}

/// A command of the command line.
#[derive(Clone, Copy, Debug, PartialEq, Eq, Structural)]
pub enum Commands {
    /// Start the node.
    Start,
    /// Show the status and the configuration of the node.
    Status,
    /// Configure the node in a dialog.
    Setup,
    /// Check the configuration.
    Validate,
    /// Show the configuration file.
    Config,
}

/// What a command of the command line comes to.
#[derive(Clone, Copy, Debug, PartialEq, Eq, Structural)]
pub enum CliAction {
    /// Go on and start the node.
    Proceed,
    ShowStatus,
    InteractiveSetup,
    ValidateConfiguration,
    ShowConfiguration,
}

/// What the command line asks for.
pub fn handle_command(cli: Cli) -> (action: CliAction)
    ensures
        action == match cli.command {
            Commands::Start => CliAction::Proceed,
            Commands::Status => CliAction::ShowStatus,
            Commands::Setup => CliAction::InteractiveSetup,
            Commands::Validate => CliAction::ValidateConfiguration,
            Commands::Config => CliAction::ShowConfiguration,
        },
{
    match cli.command {
        Commands::Start => CliAction::Proceed,
        Commands::Status => CliAction::ShowStatus,
        Commands::Setup => CliAction::InteractiveSetup,
        Commands::Validate => CliAction::ValidateConfiguration,
        Commands::Config => CliAction::ShowConfiguration,
    }
}

/// A line to print.
#[derive(Debug)]
pub enum Line {
    /// This text.
    Text(String),
    /// This text, then an amount of storage, with two decimals, and its unit.
    Amount(String, Gib),
    /// The space that is free on the disk, in GiB with two decimals; here in bytes.
    FreeSpace(u64),
    /// The storage that is configured and the space that is free, both in GiB with two decimals;
    /// the latter here in bytes.
    Shortfall(Gib, u64),
    /// The space in use, in GiB with two decimals, and what part of the limit that is, in percent
    /// with one decimal; here both in bytes.
    UsedSpace(u64, u64),
    /// The limit, in GiB with two decimals; here in bytes.
    MaxSpace(u64),
}

/// A line to print, as characters.
pub enum LineView {
    Text(Seq<char>),
    Amount(Seq<char>, Gib),
    FreeSpace(u64),
    Shortfall(Gib, u64),
    UsedSpace(u64, u64),
    MaxSpace(u64),
}

impl Line {
    /// The line, as characters.
    pub open spec fn view(self) -> LineView {
        match self {
            Line::Text(t) => LineView::Text(t@),
            Line::Amount(t, amount) => LineView::Amount(t@, amount),
            Line::FreeSpace(bytes) => LineView::FreeSpace(bytes),
            Line::Shortfall(amount, bytes) => LineView::Shortfall(amount, bytes),
            Line::UsedSpace(used, max) => LineView::UsedSpace(used, max),
            Line::MaxSpace(bytes) => LineView::MaxSpace(bytes),
        }
    }
}

/// The lines, as characters.
pub open spec fn line_views(lines: Seq<Line>) -> Seq<LineView> {
    lines.map_values(|line: Line| line@)
}

/// A line of text.
pub open spec fn said(t: Seq<char>) -> LineView {
    LineView::Text(t)
}

pub(crate) fn put(lines: &mut Vec<Line>, line: Line)
    ensures
        line_views(final(lines)@) == line_views(old(lines)@).push(line@),
{
    lines.push(line);
    assert(line_views(lines@) =~= line_views(old(lines)@).push(line@));
}

pub(crate) fn say(lines: &mut Vec<Line>, t: &str)
    ensures
        line_views(final(lines)@) == line_views(old(lines)@).push(said(t@)),
{
    put(lines, Line::Text(t.to_owned()));
}

pub(crate) fn no_lines() -> (lines: Vec<Line>)
    ensures
        line_views(lines@) == Seq::<LineView>::empty(),
{
    let lines: Vec<Line> = Vec::new();
    assert(line_views(lines@) =~= Seq::empty());
    lines
}

/// What a command printed, and why it failed, if it did.
#[derive(Debug)]
pub struct Report {
    pub lines: Vec<Line>,
    pub outcome: Result<(), String>,
}

impl Report {
    /// The command printed `lines` and succeeded.
    pub open spec fn succeeds_with(self, lines: Seq<LineView>) -> bool {
        &&& line_views(self.lines@) == lines
        &&& self.outcome is Ok
    }

    /// The command printed `lines` and failed with this message.
    pub open spec fn fails_with(self, lines: Seq<LineView>, message: Seq<char>) -> bool {
        &&& line_views(self.lines@) == lines
        &&& self.outcome matches Err(e) && e@ == message
    }
}

/// `t`, or `otherwise` where it is empty.
pub open spec fn or_else(t: Seq<char>, otherwise: Seq<char>) -> Seq<char> {
    if t.len() == 0 {
        otherwise
    } else {
        t
    }
}

/// How the token is shown: only whether there is one.
pub open spec fn token_shown(token: Seq<char>) -> Seq<char> {
    if token.len() == 0 {
        "Not configured"@
    } else {
        "Configured"@
    }
}

/// How a configuration is shown, each line behind `indent`.
pub open spec fn config_lines(config: Config, indent: Seq<char>) -> Seq<LineView> {
    seq![
        said(indent + "Node ID: "@ + or_else(config.node_id@, "Not configured"@)),
        said(indent + "Auth Token: "@ + token_shown(config.auth_token@)),
        said(indent + "Storage Path: "@ + path::shown_path(config.storage_path@)),
        LineView::Amount(indent + "Max Storage: "@, config.max_storage_gib),
        said(indent + "WebSocket URL: "@ + or_else(config.ws_url@, "Default (wss://wss.project-yourcloud.me)"@)),
    ]
}

pub(crate) fn text_or<'a>(t: &'a str, otherwise: &'a str) -> (r: &'a str)
    ensures
        r@ == or_else(t@, otherwise@),
{
    if t.is_empty() {
        otherwise
    } else {
        t
    }
}

pub(crate) fn show_token(token: &str) -> (r: &'static str)
    ensures
        r@ == token_shown(token@),
{
    if token.is_empty() {
        "Not configured"
    } else {
        "Configured"
    }
}

fn say_config(lines: &mut Vec<Line>, config: &Config, indent: &str)
    ensures
        line_views(final(lines)@) == line_views(old(lines)@) + config_lines(*config, indent@),
{
    say(lines, text::concat3(indent, "Node ID: ", text_or(config.node_id.as_str(), "Not configured")).as_str());
    say(lines, text::concat3(indent, "Auth Token: ", show_token(config.auth_token.as_str())).as_str());
    let shown = path::show_path(config.storage_path.as_str());
    say(lines, text::concat3(indent, "Storage Path: ", shown.as_str()).as_str());
    put(lines, Line::Amount(text::concat2(indent, "Max Storage: "), config.max_storage_gib));
    let url = text_or(config.ws_url.as_str(), "Default (wss://wss.project-yourcloud.me)");
    say(lines, text::concat3(indent, "WebSocket URL: ", url).as_str());
    assert(line_views(lines@) =~= line_views(old(lines)@) + config_lines(*config, indent@));
}

/// What the system says of the storage of a node: whether its directory exists, the space that is
/// free there, and, where the directory exists, the counters of a scan or why there are none.
#[derive(Debug)]
pub struct StorageFacts {
    pub path_exists: bool,
    pub available: Result<u64, DiskSpaceError>,
    pub usage: Option<Result<StorageState, String>>,
}

/// How the free space is shown.
pub open spec fn space_lines(config: Config, available: Result<u64, DiskSpaceError>) -> Seq<LineView> {
    match available {
        Ok(bytes) => if bytes >= config.max_storage_gib.in_bytes() {
            seq![LineView::FreeSpace(bytes), said("Sufficient disk space for configured storage"@)]
        } else {
            seq![
                LineView::FreeSpace(bytes),
                said("Insufficient disk space for configured storage"@),
                LineView::Shortfall(config.max_storage_gib, bytes),
            ]
        },
        Err(e) => seq![said("Could not check disk space: "@ + e.text())],
    }
}

/// How the storage in use is shown.
pub open spec fn usage_lines(usage: Option<Result<StorageState, String>>) -> Seq<LineView> {
    match usage {
        Some(Ok(state)) => seq![
            said(Seq::empty()),
            said("=== Current Storage Usage ==="@),
            LineView::UsedSpace(state.current_used_space_bytes, state.max_storage_bytes),
            LineView::MaxSpace(state.max_storage_bytes),
            said("  Stored Chunks: "@ + text::decimal(state.current_chunk_count as nat)),
        ],
        Some(Err(e)) => seq![said("Could not analyze current storage: "@ + e@)],
        None => Seq::empty(),
    }
}

/// How it is shown whether the node can be started.
pub open spec fn readiness_lines(config: Config) -> Seq<LineView> {
    if config.has_credentials() {
        seq![
            said(Seq::empty()),
            said("Node is ready to start"@),
            said("Run 'yourcloud_client start' to begin daemon mode"@),
        ]
    } else {
        seq![
            said(Seq::empty()),
            said("Node is NOT ready to start"@),
            said("Missing node_id and/or auth_token"@),
            said("Run 'yourcloud_client setup' to configure, register through the web interface"@),
        ]
    }
}

/// How it is shown whether the storage directory exists.
pub open spec fn existence_line(exists_now: bool) -> LineView {
    if exists_now {
        said("Storage path exists"@)
    } else {
        said("Storage path does not exist (will be created on start)"@)
    }
}

/// What the status of a configured node looks like.
pub open spec fn status_lines(config: Config, facts: StorageFacts) -> Seq<LineView> {
    seq![said("=== Project YourCloud Storage Client Status ==="@), said("Configuration loaded successfully"@)]
        + config_lines(config, Seq::empty()) + seq![existence_line(facts.path_exists)] + space_lines(
        config,
        facts.available,
    ) + usage_lines(facts.usage) + readiness_lines(config)
}

/// What the status of a node without a configuration looks like; `why` is why it has none.
pub open spec fn failed_status_lines(why: Seq<char>) -> Seq<LineView> {
    seq![
        said("=== Project YourCloud Storage Client Status ==="@),
        said("Failed to load configuration: "@ + why),
        said("Run 'yourcloud_client setup' to create initial configuration"@),
    ]
}

fn say_space(lines: &mut Vec<Line>, config: &Config, available: &Result<u64, DiskSpaceError>)
    ensures
        line_views(final(lines)@) == line_views(old(lines)@) + space_lines(*config, *available),
{
    match available {
        Ok(bytes) => {
            put(lines, Line::FreeSpace(*bytes));
            if *bytes >= config.max_storage_gib.to_bytes() {
                say(lines, "Sufficient disk space for configured storage");
            } else {
                say(lines, "Insufficient disk space for configured storage");
                put(lines, Line::Shortfall(config.max_storage_gib, *bytes));
            }
        },
        Err(e) => {
            say(lines, text::concat2("Could not check disk space: ", e.message().as_str()).as_str());
        },
    }
    assert(line_views(lines@) =~= line_views(old(lines)@) + space_lines(*config, *available));
}

fn say_usage(lines: &mut Vec<Line>, usage: &Option<Result<StorageState, String>>)
    ensures
        line_views(final(lines)@) == line_views(old(lines)@) + usage_lines(*usage),
{
    match usage {
        Some(Ok(state)) => {
            put(lines, Line::Text(String::new()));
            say(lines, "=== Current Storage Usage ===");
            put(lines, Line::UsedSpace(state.current_used_space_bytes, state.max_storage_bytes));
            put(lines, Line::MaxSpace(state.max_storage_bytes));
            let count = text::decimal_text(state.current_chunk_count);
            say(lines, text::concat2("  Stored Chunks: ", count.as_str()).as_str());
        },
        Some(Err(e)) => {
            say(lines, text::concat2("Could not analyze current storage: ", e.as_str()).as_str());
        },
        None => {},
    }
    assert(line_views(lines@) =~= line_views(old(lines)@) + usage_lines(*usage));
}

fn say_readiness(lines: &mut Vec<Line>, config: &Config)
    ensures
        line_views(final(lines)@) == line_views(old(lines)@) + readiness_lines(*config),
{
    put(lines, Line::Text(String::new()));
    if !config.is_ready() {
        say(lines, "Node is NOT ready to start");
        say(lines, "Missing node_id and/or auth_token");
        say(lines, "Run 'yourcloud_client setup' to configure, register through the web interface");
    } else {
        say(lines, "Node is ready to start");
        say(lines, "Run 'yourcloud_client start' to begin daemon mode");
    }
    assert(line_views(lines@) =~= line_views(old(lines)@) + readiness_lines(*config));
}

/// Shows the status of the node: its configuration and what the system says of its storage, or
/// why there is no configuration.
pub fn show_status(known: &Result<(Config, StorageFacts), String>) -> (report: Report)
    ensures
        match known {
            Ok(k) => report.succeeds_with(status_lines(k.0, k.1)),
            Err(e) => report.fails_with(failed_status_lines(e@), e@),
        },
{
    let mut lines = no_lines();
    say(&mut lines, "=== Project YourCloud Storage Client Status ===");
    match known {
        Ok(k) => {
            say(&mut lines, "Configuration loaded successfully");
            say_config(&mut lines, &k.0, "");
            if k.1.path_exists {
                say(&mut lines, "Storage path exists");
            } else {
                say(&mut lines, "Storage path does not exist (will be created on start)");
            }
            say_space(&mut lines, &k.0, &k.1.available);
            say_usage(&mut lines, &k.1.usage);
            say_readiness(&mut lines, &k.0);
            proof {
                reveal_strlit("");
                assert(""@ =~= Seq::<char>::empty());
                assert(line_views(lines@) =~= status_lines(k.0, k.1));
            }
            Report { lines, outcome: Ok(()) }
        },
        Err(e) => {
            say(&mut lines, text::concat2("Failed to load configuration: ", e.as_str()).as_str());
            say(&mut lines, "Run 'yourcloud_client setup' to create initial configuration");
            assert(line_views(lines@) =~= failed_status_lines(e@));
            Report { lines, outcome: Err(e.clone()) }
        },
    }
}

/// How the outcome of a disk space check is shown.
pub open spec fn checked_space_lines(config: Config, available: Result<u64, DiskSpaceError>) -> Seq<LineView> {
    match available {
        Ok(bytes) => if bytes >= config.max_storage_gib.in_bytes() {
            seq![said("Sufficient disk space available"@)]
        } else {
            seq![
                said("Insufficient disk space for configured max_storage_gib"@),
                said(
                    "Available: "@ + text::decimal(bytes as nat) + " bytes, Required: "@ + text::decimal(
                        config.max_storage_gib.in_bytes(),
                    ) + " bytes"@,
                ),
            ]
        },
        Err(e) => seq![said("Could not verify available disk space: "@ + e.text())],
    }
}

/// Why the check of the disk space fails, if it does.
pub open spec fn space_fault(config: Config, available: Result<u64, DiskSpaceError>) -> Option<Seq<char>> {
    match available {
        Ok(bytes) => if bytes >= config.max_storage_gib.in_bytes() {
            None
        } else {
            Some("Not enough disk space to meet configured max_storage_gib"@)
        },
        Err(e) => Some(e.text()),
    }
}

/// How a check of the configuration ends that found nothing wrong.
pub open spec fn valid_end_lines(config: Config) -> Seq<LineView> {
    (if config.has_credentials() {
        seq![said("Node credentials configured"@)]
    } else {
        seq![
            said("Node ID and/or Auth Token not configured"@),
            said("Node will not be able to connect to backend without these credentials"@),
        ]
    }) + seq![said(Seq::empty()), said("Configuration validation completed successfully"@)]
}

/// What a check of the configuration begins with when there is one.
pub open spec fn validation_head() -> Seq<LineView> {
    seq![said("=== Configuration Validation ==="@), said("Configuration file loaded successfully"@)]
}

/// `report` is what the check of `config` comes to, given what is wrong with it, if anything is,
/// and the space that is free. `amount` is how the configured limit is written.
pub open spec fn is_validation(
    report: Report,
    config: Config,
    wrong: Option<ValidationError>,
    available: Result<u64, DiskSpaceError>,
    amount: Seq<char>,
) -> bool {
    match wrong {
        Some(e) => report.fails_with(
            validation_head() + seq![said("Configuration validation failed: "@ + e.text(amount))],
            e.text(amount),
        ),
        None => {
            let lines = validation_head() + seq![said("Configuration is valid"@)] + checked_space_lines(
                config,
                available,
            );
            match space_fault(config, available) {
                Some(message) => report.fails_with(lines, message),
                None => report.succeeds_with(lines + valid_end_lines(config)),
            }
        },
    }
}

/// What the check of a configuration comes to, given the verdict on its rules and the space that
/// is free. `amount` is how the configured limit is written.
pub fn report_validation(
    config: &Config,
    verdict: &Result<(), ValidationError>,
    available: &Result<u64, DiskSpaceError>,
    amount: &str,
) -> (report: Report)
    ensures
        is_validation(
            report,
            *config,
            match verdict {
                Err(e) => Some(*e),
                Ok(_) => None,
            },
            *available,
            amount@,
        ),
{
    let mut lines = no_lines();
    say(&mut lines, "=== Configuration Validation ===");
    say(&mut lines, "Configuration file loaded successfully");
    assert(line_views(lines@) =~= validation_head());
    match verdict {
        Err(e) => {
            let message = e.message(amount);
            say(&mut lines, text::concat2("Configuration validation failed: ", message.as_str()).as_str());
            assert(line_views(lines@) =~= validation_head() + seq![
                said("Configuration validation failed: "@ + e.text(amount@)),
            ]);
            return Report { lines, outcome: Err(message) };
        },
        Ok(_) => {
            say(&mut lines, "Configuration is valid");
        },
    }
    let ghost valid = validation_head() + seq![said("Configuration is valid"@)];
    assert(line_views(lines@) =~= valid);
    let required: u64 = config.max_storage_gib.to_bytes();
    match available {
        Ok(bytes) => {
            if *bytes >= required {
                say(&mut lines, "Sufficient disk space available");
                assert(line_views(lines@) =~= valid + checked_space_lines(*config, *available));
            } else {
                say(&mut lines, "Insufficient disk space for configured max_storage_gib");
                let mut t = text::concat3(
                    "Available: ",
                    text::decimal_text(*bytes).as_str(),
                    " bytes, Required: ",
                );
                t.append(text::decimal_text(required).as_str());
                t.append(" bytes");
                put(&mut lines, Line::Text(t));
                assert(line_views(lines@) =~= valid + checked_space_lines(*config, *available));
                return Report {
                    lines,
                    outcome: Err("Not enough disk space to meet configured max_storage_gib".to_owned()),
                };
            }
        },
        Err(e) => {
            let message = e.message();
            say(&mut lines, text::concat2("Could not verify available disk space: ", message.as_str()).as_str());
            assert(line_views(lines@) =~= valid + checked_space_lines(*config, *available));
            return Report { lines, outcome: Err(message) };
        },
    }
    let ghost checked = line_views(lines@);
    if !config.is_ready() {
        say(&mut lines, "Node ID and/or Auth Token not configured");
        say(&mut lines, "Node will not be able to connect to backend without these credentials");
    } else {
        say(&mut lines, "Node credentials configured");
    }
    put(&mut lines, Line::Text(String::new()));
    say(&mut lines, "Configuration validation completed successfully");
    assert(line_views(lines@) =~= checked + valid_end_lines(*config));
    Report { lines, outcome: Ok(()) }
}

/// Checks the configuration: its rules and the space that is free, or says why there is none.
/// `amount` is how the configured limit is written.
pub fn validate_configuration(
    known: &Result<(Config, Result<u64, DiskSpaceError>), String>,
    amount: &str,
) -> (report: Report)
    ensures
        match known {
            Ok(k) => is_validation(
                report,
                k.0,
                config::fault(k.0, config::node_id_characters(k.0.node_id@)),
                k.1,
                amount@,
            ),
            Err(e) => report.fails_with(
                seq![said("=== Configuration Validation ==="@), said("Failed to load configuration: "@ + e@)],
                e@,
            ),
        },
{
    match known {
        Ok(k) => {
            let verdict = config::validate_config(&k.0);
            report_validation(&k.0, &verdict, &k.1, amount)
        },
        Err(e) => {
            let mut lines = no_lines();
            say(&mut lines, "=== Configuration Validation ===");
            say(&mut lines, text::concat2("Failed to load configuration: ", e.as_str()).as_str());
            assert(line_views(lines@) =~= seq![
                said("=== Configuration Validation ==="@),
                said("Failed to load configuration: "@ + e@),
            ]);
            Report { lines, outcome: Err(e.clone()) }
        },
    }
}

/// What is known of the configuration file: its contents and what was read from them, where it
/// exists; each may be missing for a reason.
#[derive(Debug)]
pub struct FileFacts {
    pub contents: Result<String, String>,
    pub parsed: Result<Config, String>,
}

/// What the configuration file at `file` is introduced with.
pub open spec fn file_head(file: Seq<char>) -> Seq<LineView> {
    seq![said("=== Configuration Information ==="@), said("Config file path: "@ + path::shown_path(file))]
}

/// How the contents of the configuration file are shown.
pub open spec fn contents_lines(contents: Seq<char>) -> Seq<LineView> {
    seq![
        said("Configuration file exists"@),
        said(Seq::empty()),
        said("Configuration file contents:"@),
        said("---"@),
        said(contents),
        said("---"@),
    ]
}

/// How it is shown what was read from the configuration file.
pub open spec fn parsed_lines(parsed: Result<Config, String>) -> Seq<LineView> {
    match parsed {
        Ok(config) => seq![said(Seq::empty()), said("Parsed configuration:"@)] + config_lines(config, "  "@),
        Err(e) => seq![said("Failed to parse configuration: "@ + e@)],
    }
}

/// Shows the configuration file: where it is, what is in it and what was read from it. Without a
/// file there are no `facts`.
pub fn show_configuration(config_dir: &Option<String>, facts: &Option<FileFacts>) -> (report: Report)
    ensures
        ({
            let head = file_head(config::config_file(*config_dir));
            match facts {
                None => report.succeeds_with(
                    head + seq![
                        said("Configuration file does not exist"@),
                        said("Run 'yourcloud_client setup' to create initial configuration"@),
                    ],
                ),
                Some(f) => match f.contents {
                    Ok(contents) => report.succeeds_with(head + contents_lines(contents@) + parsed_lines(f.parsed)),
                    Err(e) => report.fails_with(
                        head + seq![
                            said("Configuration file exists"@),
                            said("Failed to read configuration file: "@ + e@),
                        ],
                        e@,
                    ),
                },
            }
        }),
{
    let mut lines = no_lines();
    let file = match config::get_config_path(config_dir) {
        Ok(file) => file,
        Err(_) => String::new(),
    };
    say(&mut lines, "=== Configuration Information ===");
    say(&mut lines, text::concat2("Config file path: ", path::show_path(file.as_str()).as_str()).as_str());
    let ghost head = file_head(config::config_file(*config_dir));
    assert(line_views(lines@) =~= head);
    match facts {
        None => {
            say(&mut lines, "Configuration file does not exist");
            say(&mut lines, "Run 'yourcloud_client setup' to create initial configuration");
            assert(line_views(lines@) =~= head + seq![
                said("Configuration file does not exist"@),
                said("Run 'yourcloud_client setup' to create initial configuration"@),
            ]);
            Report { lines, outcome: Ok(()) }
        },
        Some(f) => {
            say(&mut lines, "Configuration file exists");
            match &f.contents {
                Ok(contents) => {
                    put(&mut lines, Line::Text(String::new()));
                    say(&mut lines, "Configuration file contents:");
                    say(&mut lines, "---");
                    say(&mut lines, contents.as_str());
                    say(&mut lines, "---");
                    assert(line_views(lines@) =~= head + contents_lines(contents@));
                },
                Err(e) => {
                    say(&mut lines, text::concat2("Failed to read configuration file: ", e.as_str()).as_str());
                    assert(line_views(lines@) =~= head + seq![
                        said("Configuration file exists"@),
                        said("Failed to read configuration file: "@ + e@),
                    ]);
                    return Report { lines, outcome: Err(e.clone()) };
                },
            }
            let ghost shown = line_views(lines@);
            match &f.parsed {
                Ok(config) => {
                    put(&mut lines, Line::Text(String::new()));
                    say(&mut lines, "Parsed configuration:");
                    say_config(&mut lines, config, "  ");
                },
                Err(e) => {
                    say(&mut lines, text::concat2("Failed to parse configuration: ", e.as_str()).as_str());
                },
            }
            assert(line_views(lines@) =~= shown + parsed_lines(f.parsed));
            Report { lines, outcome: Ok(()) }
        },
    }
}

} // verus!
