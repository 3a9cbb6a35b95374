//! What the commands of the command line, and the dialog, tell the user.

use crate::cli;
use crate::cli::{LineView, Report, StorageFacts};
use crate::config::{Config, ValidationError};
use crate::disk::DiskSpaceError;
use crate::path;
use crate::setup;
use crate::setup::{PromptView, Setup, SetupStage};
use crate::text;
use vstd::prelude::*;
use vstd::string::*;

verus! {

/// A configuration passes the check exactly when it keeps the rules and the disk has at least as
/// many bytes free as it may come to hold. Otherwise the check fails with the rule that is broken,
/// with the reason why the free space is not known, or with the lack of space.
pub proof fn validation_passes_exactly_when_there_is_room(
    report: Report,
    config: Config,
    wrong: Option<ValidationError>,
    available: Result<u64, DiskSpaceError>,
    amount: Seq<char>,
)
    requires
        cli::is_validation(report, config, wrong, available, amount),
    ensures
        report.outcome is Ok <==> (wrong is None && (available matches Ok(bytes) && bytes
            >= config.max_storage_gib.in_bytes())),
        wrong matches Some(e) ==> (report.outcome matches Err(message) && message@ == e.text(amount)),
        wrong is None && (available matches Ok(bytes) && bytes < config.max_storage_gib.in_bytes()) ==> (
        report.outcome matches Err(message) && message@
            == "Not enough disk space to meet configured max_storage_gib"@),
        wrong is None ==> (available matches Err(e) ==> (report.outcome matches Err(message) && message@ == e.text())),
{
}

/// The check says what it found: that the file was loaded, whether the rules are kept, whether there
/// is room and, if not, how much there is and how much there must be, in bytes; and where all is
/// well it ends by saying whether the node has its credentials and that the check succeeded.
pub proof fn validation_says_what_it_found(
    report: Report,
    config: Config,
    wrong: Option<ValidationError>,
    available: Result<u64, DiskSpaceError>,
    amount: Seq<char>,
)
    requires
        cli::is_validation(report, config, wrong, available, amount),
    ensures
        ({
            let lines = cli::line_views(report.lines@);
            &&& lines.len() >= 3
            &&& lines[0] == LineView::Text("=== Configuration Validation ==="@)
            &&& lines[1] == LineView::Text("Configuration file loaded successfully"@)
            &&& match wrong {
                Some(e) => lines.len() == 3 && lines[2] == LineView::Text(
                    "Configuration validation failed: "@ + e.text(amount),
                ),
                None => {
                    &&& lines.len() >= 4
                    &&& lines[2] == LineView::Text("Configuration is valid"@)
                    &&& match available {
                        Err(e) => lines.len() == 4 && lines[3] == LineView::Text(
                            "Could not verify available disk space: "@ + e.text(),
                        ),
                        Ok(bytes) => if bytes < config.max_storage_gib.in_bytes() {
                            &&& lines.len() == 5
                            &&& lines[3] == LineView::Text("Insufficient disk space for configured max_storage_gib"@)
                            &&& lines[4] == LineView::Text(
                                "Available: "@ + text::decimal(bytes as nat) + " bytes, Required: "@ + text::decimal(
                                    config.max_storage_gib.in_bytes(),
                                ) + " bytes"@,
                            )
                        } else {
                            &&& lines[3] == LineView::Text("Sufficient disk space available"@)
                            &&& lines.last() == LineView::Text("Configuration validation completed successfully"@)
                            &&& if config.node_id@.len() > 0 && config.auth_token@.len() > 0 {
                                lines.len() == 7 && lines[4] == LineView::Text("Node credentials configured"@)
                            } else {
                                lines.len() == 8 && lines[4] == LineView::Text(
                                    "Node ID and/or Auth Token not configured"@,
                                )
                            }
                        },
                    }
                },
            }
        }),
{
}

/// `t`, or `otherwise` where there is none.
pub open spec fn shown_or(t: Seq<char>, otherwise: Seq<char>) -> Seq<char> {
    if t == Seq::<char>::empty() {
        otherwise
    } else {
        t
    }
}

/// The status shows the node as it is: each field of its configuration, but of the token only
/// whether there is one; whether its directory exists; how much is free, and whether that is at
/// least as much as the node may come to hold.
pub proof fn status_shows_configuration_and_space(config: Config, facts: StorageFacts)
    ensures
        ({
            let lines = cli::status_lines(config, facts);
            &&& lines.len() >= 12
            &&& lines[0] == LineView::Text("=== Project YourCloud Storage Client Status ==="@)
            &&& lines[1] == LineView::Text("Configuration loaded successfully"@)
            &&& lines[2] == LineView::Text("Node ID: "@ + shown_or(config.node_id@, "Not configured"@))
            &&& lines[3] == LineView::Text(
                "Auth Token: "@ + if config.auth_token@.len() > 0 {
                    "Configured"@
                } else {
                    "Not configured"@
                },
            )
            &&& lines[4] == LineView::Text("Storage Path: "@ + path::shown_path(config.storage_path@))
            &&& lines[5] == LineView::Amount("Max Storage: "@, config.max_storage_gib)
            &&& lines[6] == LineView::Text(
                "WebSocket URL: "@ + shown_or(config.ws_url@, "Default (wss://wss.project-yourcloud.me)"@),
            )
            &&& lines[7] == LineView::Text(
                if facts.path_exists {
                    "Storage path exists"@
                } else {
                    "Storage path does not exist (will be created on start)"@
                },
            )
            &&& match facts.available {
                Ok(bytes) => {
                    &&& lines[8] == LineView::FreeSpace(bytes)
                    &&& lines[9] == LineView::Text(
                        if bytes < config.max_storage_gib.in_bytes() {
                            "Insufficient disk space for configured storage"@
                        } else {
                            "Sufficient disk space for configured storage"@
                        },
                    )
                    &&& bytes < config.max_storage_gib.in_bytes() ==> lines[10] == LineView::Shortfall(
                        config.max_storage_gib,
                        bytes,
                    )
                },
                Err(e) => lines[8] == LineView::Text("Could not check disk space: "@ + e.text()),
            }
        }),
{
    let none = Seq::<char>::empty();
    assert(none + "Node ID: "@ =~= "Node ID: "@);
    assert(none + "Auth Token: "@ =~= "Auth Token: "@);
    assert(none + "Storage Path: "@ =~= "Storage Path: "@);
    assert(none + "Max Storage: "@ =~= "Max Storage: "@);
    assert(none + "WebSocket URL: "@ =~= "WebSocket URL: "@);
    assert(config.node_id@.len() == 0 ==> config.node_id@ =~= none);
    assert(config.ws_url@.len() == 0 ==> config.ws_url@ =~= none);
}

/// The status shows the storage in use, the limit and the number of chunks where a scan told them,
/// and ends with whether the node can be started: it can exactly when it has an identifier and a
/// token.
pub proof fn status_shows_usage_and_readiness(config: Config, facts: StorageFacts)
    ensures
        ({
            let lines = cli::status_lines(config, facts);
            let ready = config.node_id@.len() > 0 && config.auth_token@.len() > 0;
            let end = if ready {
                3int
            } else {
                4
            };
            let from = lines.len() - end;
            &&& from >= 9
            &&& lines[from] == LineView::Text(Seq::empty())
            &&& lines[from + 1] == LineView::Text(
                if ready {
                    "Node is ready to start"@
                } else {
                    "Node is NOT ready to start"@
                },
            )
            &&& match facts.usage {
                Some(Ok(state)) => {
                    &&& from >= 14
                    &&& lines[from - 4] == LineView::Text("=== Current Storage Usage ==="@)
                    &&& lines[from - 3] == LineView::UsedSpace(
                        state.current_used_space_bytes,
                        state.max_storage_bytes,
                    )
                    &&& lines[from - 2] == LineView::MaxSpace(state.max_storage_bytes)
                    &&& lines[from - 1] == LineView::Text(
                        "  Stored Chunks: "@ + text::decimal(state.current_chunk_count as nat),
                    )
                },
                Some(Err(e)) => lines[from - 1] == LineView::Text("Could not analyze current storage: "@ + e@),
                None => from == match facts.available {
                    Ok(bytes) => if bytes < config.max_storage_gib.in_bytes() {
                        11int
                    } else {
                        10
                    },
                    Err(_) => 9,
                },
            }
        }),
{
}

/// Two configurations that differ in nothing but which token they have.
pub open spec fn differ_in_token(a: Config, b: Config) -> bool {
    &&& a.node_id@ == b.node_id@
    &&& a.storage_path@ == b.storage_path@
    &&& a.max_storage_gib == b.max_storage_gib
    &&& a.ws_url@ == b.ws_url@
    &&& a.auth_token@.len() > 0
    &&& b.auth_token@.len() > 0
}

/// A token is never shown: what the status, the configuration, the summary and the questions of the
/// dialog show is the same for every token.
pub proof fn token_is_never_shown(a: Config, b: Config, facts: StorageFacts, indent: Seq<char>, stage: SetupStage)
    requires
        differ_in_token(a, b),
    ensures
        cli::status_lines(a, facts) == cli::status_lines(b, facts),
        cli::config_lines(a, indent) == cli::config_lines(b, indent),
        setup::summary_lines(a) == setup::summary_lines(b),
        (Setup { config: a, stage }).prompted() == (Setup { config: b, stage }).prompted(),
{
    assert(cli::config_lines(a, indent) =~= cli::config_lines(b, indent));
    assert(cli::config_lines(a, Seq::empty()) =~= cli::config_lines(b, Seq::empty()));
    assert(cli::space_lines(a, facts.available) =~= cli::space_lines(b, facts.available));
    assert(cli::status_lines(a, facts) =~= cli::status_lines(b, facts));
    assert(setup::summary_lines(a) =~= setup::summary_lines(b));
}

/// The configuration is shown as it is, each line behind the indent.
pub proof fn configuration_is_shown_as_it_is(config: Config, indent: Seq<char>)
    ensures
        ({
            let lines = cli::config_lines(config, indent);
            &&& lines.len() == 5
            &&& lines[0] == LineView::Text(indent + "Node ID: "@ + shown_or(config.node_id@, "Not configured"@))
            &&& lines[1] == LineView::Text(
                indent + "Auth Token: "@ + if config.auth_token@.len() > 0 {
                    "Configured"@
                } else {
                    "Not configured"@
                },
            )
            &&& lines[2] == LineView::Text(indent + "Storage Path: "@ + path::shown_path(config.storage_path@))
            &&& lines[3] == LineView::Amount(indent + "Max Storage: "@, config.max_storage_gib)
            &&& lines[4] == LineView::Text(
                indent + "WebSocket URL: "@ + shown_or(config.ws_url@, "Default (wss://wss.project-yourcloud.me)"@),
            )
        }),
{
    assert(config.node_id@.len() == 0 ==> config.node_id@ =~= Seq::<char>::empty());
    assert(config.ws_url@.len() == 0 ==> config.ws_url@ =~= Seq::<char>::empty());
}

/// The file is shown whole, between two rules, and what was read from it after that.
pub proof fn file_is_shown_whole(contents: Seq<char>, file: Seq<char>, parsed: Result<Config, String>)
    ensures
        cli::file_head(file) == seq![
            LineView::Text("=== Configuration Information ==="@),
            LineView::Text("Config file path: "@ + path::shown_path(file)),
        ],
        cli::contents_lines(contents).len() == 6,
        cli::contents_lines(contents)[3] == LineView::Text("---"@),
        cli::contents_lines(contents)[4] == LineView::Text(contents),
        cli::contents_lines(contents)[5] == LineView::Text("---"@),
        match parsed {
            Ok(config) => {
                &&& cli::parsed_lines(parsed).len() == 7
                &&& cli::parsed_lines(parsed).skip(2) == cli::config_lines(config, "  "@)
            },
            Err(e) => cli::parsed_lines(parsed) == seq![LineView::Text("Failed to parse configuration: "@ + e@)],
        },
{
    if let Ok(config) = parsed {
        assert(cli::parsed_lines(parsed).skip(2) =~= cli::config_lines(config, "  "@));
    }
}

/// A question of the dialog shows, in brackets, what an empty answer keeps.
pub proof fn question_shows_present_value(setup: Setup)
    ensures
        ({
            let c = setup.config;
            match setup.stage {
                SetupStage::AskNodeId => setup.prompted() == Some(
                    PromptView::Text(
                        if c.node_id@.len() == 0 {
                            "Node ID"@ + Seq::empty() + ": "@
                        } else {
                            "Node ID"@ + (" ["@ + c.node_id@ + "]"@) + ": "@
                        },
                    ),
                ),
                SetupStage::AskAuthToken => setup.prompted() == Some(
                    PromptView::Text(
                        if c.auth_token@.len() == 0 {
                            "Auth Token"@ + Seq::empty() + ": "@
                        } else {
                            "Auth Token"@ + (" ["@ + "configured"@ + "]"@) + ": "@
                        },
                    ),
                ),
                SetupStage::AskStoragePath => setup.prompted() == Some(
                    PromptView::Text("Storage Path"@ + (" ["@ + c.storage_path@ + "]"@) + ": "@),
                ),
                SetupStage::AskMaxStorage => setup.prompted() == Some(
                    PromptView::Amount("Maximum Storage (GiB)"@, c.max_storage_gib),
                ),
                SetupStage::AskWsUrl => setup.prompted() == Some(
                    PromptView::Text(
                        "WebSocket URL"@ + (" ["@ + shown_or(c.ws_url@, "default: wss://wss.project-yourcloud.me"@)
                            + "]"@) + ": "@,
                    ),
                ),
                SetupStage::AskSave => setup.prompted() == Some(
                    PromptView::Text("\nSave this configuration? [Y/n]: "@),
                ),
                SetupStage::Save => setup.prompted() is None,
                SetupStage::Finished(_) => setup.prompted() is None,
            }
        }),
{
    assert(setup.config.ws_url@.len() == 0 ==> setup.config.ws_url@ =~= Seq::<char>::empty());
}

/// The user confirms what would be saved: the summary shows every field of the configuration, but of
/// the token only whether there is one; and the end of the dialog says whether the node can be
/// started with it.
pub proof fn summary_shows_what_is_saved(config: Config)
    ensures
        ({
            let lines = setup::summary_lines(config);
            &&& lines.len() == 7
            &&& lines[2] == LineView::Text("Node ID: "@ + config.node_id@)
            &&& lines[3] == LineView::Text(
                "Auth Token: "@ + if config.auth_token@.len() > 0 {
                    "Configured"@
                } else {
                    "Not configured"@
                },
            )
            &&& lines[4] == LineView::Text("Storage Path: "@ + path::shown_path(config.storage_path@))
            &&& lines[5] == LineView::Amount("Max Storage: "@, config.max_storage_gib)
            &&& lines[6] == LineView::Text("WebSocket URL: "@ + shown_or(config.ws_url@, "Default"@))
        }),
        ({
            let lines = setup::saved_lines(config);
            &&& lines.len() >= 4
            &&& lines[0] == LineView::Text("Configuration saved successfully!"@)
            &&& lines[2] == LineView::Text(
                if config.node_id@.len() > 0 && config.auth_token@.len() > 0 {
                    "Your storage node is ready to start!"@
                } else {
                    "Note: Node ID and Auth Token are required to connect to the backend."@
                },
            )
        }),
{
    assert(config.ws_url@.len() == 0 ==> config.ws_url@ =~= Seq::<char>::empty());
}

} // verus!
