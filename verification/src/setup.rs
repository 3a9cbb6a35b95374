//! The dialog that configures a node.
//!
//! The dialog asks for one thing after the other. Each question shows what is configured, and an
//! empty answer keeps it. Nothing is saved before the user has seen the whole configuration and
//! has not refused it.

use crate::cli;
use crate::cli::{Line, LineView};
use crate::config;
use crate::config::{Config, Places, SaveError};
use crate::gib::{Gib, DEFAULT_GIB_BITS};
use crate::path;
use crate::text;
use vstd::prelude::*;
use vstd::string::*;

verus! {

/// Why the dialog failed.
#[derive(Clone, Copy, Debug, PartialEq, Eq, Structural)]
pub enum SetupError {
    /// The amount of storage is not greater than zero.
    NotPositive,
    /// The amount of storage is not a number.
    NotANumber,
    /// The configuration could not be saved.
    Save(SaveError),
}

impl SetupError {
    /// The text of `message`.
    pub open spec fn text(self) -> Seq<char> {
        match self {
            SetupError::NotPositive => "Maximum storage must be greater than 0"@,
            SetupError::NotANumber => "Invalid number format for maximum storage"@,
            SetupError::Save(_) => "Failed to save configuration"@,
        }
    }

    /// The message to show for this error.
    pub fn message(&self) -> (r: String)
        ensures
            r@ == self.text(),
    {
        match self {
            SetupError::NotPositive => "Maximum storage must be greater than 0".to_owned(),
            SetupError::NotANumber => "Invalid number format for maximum storage".to_owned(),
            SetupError::Save(_) => "Failed to save configuration".to_owned(),
        }
    }
}

/// Where the dialog is.
#[derive(Clone, Copy, Debug)]
pub enum SetupStage {
    AskNodeId,
    AskAuthToken,
    AskStoragePath,
    AskMaxStorage,
    AskWsUrl,
    /// Ask whether the configuration is to be saved.
    AskSave,
    /// Save the configuration.
    Save,
    /// Nothing: the dialog is over.
    Finished(Result<(), SetupError>),
}

/// The dialog: the configuration so far, and where the dialog is.
#[derive(Debug)]
pub struct Setup {
    pub config: Config,
    pub stage: SetupStage,
}

/// What the user is asked with, on a line the answer is typed behind.
#[derive(Debug)]
pub enum Prompt {
    /// This text.
    Text(String),
    /// This text, then an amount of storage in brackets, a colon and a space.
    Amount(String, Gib),
}

/// A prompt, as characters.
pub enum PromptView {
    Text(Seq<char>),
    Amount(Seq<char>, Gib),
}

impl Prompt {
    /// The prompt, as characters.
    pub open spec fn view(self) -> PromptView {
        match self {
            Prompt::Text(t) => PromptView::Text(t@),
            Prompt::Amount(t, amount) => PromptView::Amount(t@, amount),
        }
    }
}

/// `value` in brackets behind a space.
pub open spec fn bracketed(value: Seq<char>) -> Seq<char> {
    " ["@ + value + "]"@
}

/// The question `label`, with what it shows of the present value.
pub open spec fn question(label: Seq<char>, shown: Seq<char>) -> PromptView {
    PromptView::Text(label + shown + ": "@)
}

/// What the dialog prints before the first question.
pub open spec fn greeting_lines(found: bool) -> Seq<LineView> {
    seq![
        cli::said("=== Project YourCloud Storage Client Setup ==="@),
        cli::said(Seq::empty()),
        cli::said(
            if found {
                "Found existing configuration. Current values will be shown in [brackets]."@
            } else {
                "No existing configuration found. Creating new configuration."@
            },
        ),
        cli::said(Seq::empty()),
    ]
}

/// What the dialog prints before it asks whether to save `config`.
pub open spec fn summary_lines(config: Config) -> Seq<LineView> {
    seq![
        cli::said(Seq::empty()),
        cli::said("=== Configuration Summary ==="@),
        cli::said("Node ID: "@ + config.node_id@),
        cli::said("Auth Token: "@ + cli::token_shown(config.auth_token@)),
        cli::said("Storage Path: "@ + path::shown_path(config.storage_path@)),
        LineView::Amount("Max Storage: "@, config.max_storage_gib),
        cli::said("WebSocket URL: "@ + cli::or_else(config.ws_url@, "Default"@)),
    ]
}

/// What the dialog prints when `config` has been saved.
pub open spec fn saved_lines(config: Config) -> Seq<LineView> {
    if config.has_credentials() {
        seq![
            cli::said("Configuration saved successfully!"@),
            cli::said(Seq::empty()),
            cli::said("Your storage node is ready to start!"@),
            cli::said("Run 'yourcloud_client start' to begin daemon mode."@),
        ]
    } else {
        seq![
            cli::said("Configuration saved successfully!"@),
            cli::said(Seq::empty()),
            cli::said("Note: Node ID and Auth Token are required to connect to the backend."@),
            cli::said("You can obtain these by registering your node through the web interface."@),
            cli::said("Then run 'yourcloud_client setup' again to configure them."@),
        ]
    }
}

/// What the dialog prints before the first question; `found` says whether there was a
/// configuration.
pub fn greeting(found: bool) -> (lines: Vec<Line>)
    ensures
        cli::line_views(lines@) == greeting_lines(found),
{
    let mut lines = cli::no_lines();
    cli::say(&mut lines, "=== Project YourCloud Storage Client Setup ===");
    cli::put(&mut lines, Line::Text(String::new()));
    if found {
        cli::say(&mut lines, "Found existing configuration. Current values will be shown in [brackets].");
    } else {
        cli::say(&mut lines, "No existing configuration found. Creating new configuration.");
    }
    cli::put(&mut lines, Line::Text(String::new()));
    assert(cli::line_views(lines@) =~= greeting_lines(found));
    lines
}

/// Begins the dialog, with the configuration there is or, where there is none, the default one.
pub fn interactive_setup(loaded: Option<Config>, places: &Places) -> (setup: Setup)
    ensures
        setup.stage == SetupStage::AskNodeId,
        match loaded {
            Some(config) => setup.config == config,
            None => {
                &&& setup.config.node_id@ == Seq::<char>::empty()
                &&& setup.config.auth_token@ == Seq::<char>::empty()
                &&& setup.config.storage_path@ == config::default_storage_path(*places)
                &&& setup.config.max_storage_gib == (Gib { bits: DEFAULT_GIB_BITS })
                &&& setup.config.ws_url@ == Seq::<char>::empty()
            },
        },
{
    let config = match loaded {
        Some(config) => config,
        None => Config::default(places),
    };
    Setup { config, stage: SetupStage::AskNodeId }
}

/// The lowercased, trimmed answer says that the configuration is not to be saved.
pub open spec fn refuses(lowered: Seq<char>) -> bool {
    lowered == "n"@ || lowered == "no"@
}

/// Does the lowercased, trimmed answer say that the configuration is not to be saved?
pub fn refuses_to_save(lowered: &str) -> (yes: bool)
    ensures
        yes == refuses(lowered@),
{
    text::same(lowered, "n") || text::same(lowered, "no")
}

fn ask(label: &str, value: &str) -> (r: Prompt)
    ensures
        r@ == question(label@, bracketed(value@)),
{
    let mut t = text::concat3(label, " [", value);
    t.append("]");
    t.append(": ");
    assert(t@ =~= label@ + bracketed(value@) + ": "@);
    Prompt::Text(t)
}

fn ask_plain(label: &str) -> (r: Prompt)
    ensures
        r@ == question(label@, Seq::empty()),
{
    let t = text::concat2(label, ": ");
    assert(t@ =~= label@ + Seq::empty() + ": "@);
    Prompt::Text(t)
}

impl Setup {
    /// What the user is asked with, where the user is asked.
    pub open spec fn prompted(self) -> Option<PromptView> {
        match self.stage {
            SetupStage::AskNodeId => Some(
                question(
                    "Node ID"@,
                    if self.config.node_id@.len() > 0 {
                        bracketed(self.config.node_id@)
                    } else {
                        Seq::empty()
                    },
                ),
            ),
            SetupStage::AskAuthToken => Some(
                question(
                    "Auth Token"@,
                    if self.config.auth_token@.len() > 0 {
                        bracketed("configured"@)
                    } else {
                        Seq::empty()
                    },
                ),
            ),
            SetupStage::AskStoragePath => Some(question("Storage Path"@, bracketed(self.config.storage_path@))),
            SetupStage::AskMaxStorage => Some(
                PromptView::Amount("Maximum Storage (GiB)"@, self.config.max_storage_gib),
            ),
            SetupStage::AskWsUrl => Some(
                question(
                    "WebSocket URL"@,
                    bracketed(cli::or_else(self.config.ws_url@, "default: wss://wss.project-yourcloud.me"@)),
                ),
            ),
            SetupStage::AskSave => Some(PromptView::Text("\nSave this configuration? [Y/n]: "@)),
            SetupStage::Save => None,
            SetupStage::Finished(_) => None,
        }
    }

    /// What the user is asked with, where the user is asked.
    pub fn prompt(&self) -> (r: Option<Prompt>)
        ensures
            match r {
                Some(p) => self.prompted() == Some(p@),
                None => self.prompted() is None,
            },
    {
        match self.stage {
            SetupStage::AskNodeId => if self.config.node_id.as_str().is_empty() {
                Some(ask_plain("Node ID"))
            } else {
                Some(ask("Node ID", self.config.node_id.as_str()))
            },
            SetupStage::AskAuthToken => if self.config.auth_token.as_str().is_empty() {
                Some(ask_plain("Auth Token"))
            } else {
                Some(ask("Auth Token", "configured"))
            },
            SetupStage::AskStoragePath => Some(ask("Storage Path", self.config.storage_path.as_str())),
            SetupStage::AskMaxStorage => Some(
                Prompt::Amount("Maximum Storage (GiB)".to_owned(), self.config.max_storage_gib),
            ),
            SetupStage::AskWsUrl => Some(
                ask(
                    "WebSocket URL",
                    cli::text_or(self.config.ws_url.as_str(), "default: wss://wss.project-yourcloud.me"),
                ),
            ),
            SetupStage::AskSave => Some(Prompt::Text("\nSave this configuration? [Y/n]: ".to_owned())),
            SetupStage::Save => None,
            SetupStage::Finished(_) => None,
        }
    }

    /// The configuration that the user is to confirm, as it is shown before that question.
    pub fn summary(&self) -> (lines: Vec<Line>)
        ensures
            cli::line_views(lines@) == summary_lines(self.config),
    {
        let mut lines = cli::no_lines();
        cli::put(&mut lines, Line::Text(String::new()));
        cli::say(&mut lines, "=== Configuration Summary ===");
        cli::say(&mut lines, text::concat2("Node ID: ", self.config.node_id.as_str()).as_str());
        let token = cli::show_token(self.config.auth_token.as_str());
        cli::say(&mut lines, text::concat2("Auth Token: ", token).as_str());
        let shown = path::show_path(self.config.storage_path.as_str());
        cli::say(&mut lines, text::concat2("Storage Path: ", shown.as_str()).as_str());
        cli::put(&mut lines, Line::Amount("Max Storage: ".to_owned(), self.config.max_storage_gib));
        let url = cli::text_or(self.config.ws_url.as_str(), "Default");
        cli::say(&mut lines, text::concat2("WebSocket URL: ", url).as_str());
        assert(cli::line_views(lines@) =~= summary_lines(self.config));
        lines
    }

    /// The user is asked something.
    pub open spec fn asks(self) -> bool {
        !(self.stage is Save) && !(self.stage is Finished)
    }

    /// `next` is this dialog after the trimmed answer `answer`, which `number` gives as a number,
    /// if it is one. An empty answer keeps what is configured, or saves it.
    pub open spec fn leads_to(self, answer: Seq<char>, number: Option<Gib>, next: Setup) -> bool {
        let c = self.config;
        match self.stage {
            SetupStage::AskNodeId => {
                &&& next.stage == SetupStage::AskAuthToken
                &&& next.config == (Config { node_id: next.config.node_id, ..c })
                &&& next.config.node_id@ == cli::or_else(answer, c.node_id@)
            },
            SetupStage::AskAuthToken => {
                &&& next.stage == SetupStage::AskStoragePath
                &&& next.config == (Config { auth_token: next.config.auth_token, ..c })
                &&& next.config.auth_token@ == cli::or_else(answer, c.auth_token@)
            },
            SetupStage::AskStoragePath => {
                &&& next.stage == SetupStage::AskMaxStorage
                &&& next.config == (Config { storage_path: next.config.storage_path, ..c })
                &&& next.config.storage_path@ == cli::or_else(answer, c.storage_path@)
            },
            SetupStage::AskMaxStorage => if answer.len() == 0 {
                next == (Setup { stage: SetupStage::AskWsUrl, ..self })
            } else {
                match number {
                    None => next == (Setup { stage: SetupStage::Finished(Err(SetupError::NotANumber)), ..self }),
                    Some(amount) => if amount.is_positive_amount() {
                        next == (Setup {
                            config: Config { max_storage_gib: amount, ..c },
                            stage: SetupStage::AskWsUrl,
                        })
                    } else {
                        next == (Setup { stage: SetupStage::Finished(Err(SetupError::NotPositive)), ..self })
                    },
                }
            },
            SetupStage::AskWsUrl => {
                &&& next.stage == SetupStage::AskSave
                &&& next.config == (Config { ws_url: next.config.ws_url, ..c })
                &&& next.config.ws_url@ == cli::or_else(answer, c.ws_url@)
            },
            SetupStage::AskSave => {
                &&& next == (Setup {
                    stage: if refuses(text::lowercase(answer)) {
                        SetupStage::Finished(Ok(()))
                    } else {
                        SetupStage::Save
                    },
                    ..self
                })
                &&& answer.len() == 0 ==> next.stage is Save
            },
            _ => next == self,
        }
    }

    /// Goes on with the trimmed answer `answer`; `number` is the number it is, if it is one.
    pub fn answer_trimmed(self, answer: &str, number: Option<Gib>) -> (next: Setup)
        requires
            self.asks(),
        ensures
            self.leads_to(answer@, number, next),
    {
        let Setup { config, stage } = self;
        let mut config = config;
        let given = !answer.is_empty();
        let stage = match stage {
            SetupStage::AskNodeId => {
                if given {
                    config.node_id = answer.to_owned();
                }
                SetupStage::AskAuthToken
            },
            SetupStage::AskAuthToken => {
                if given {
                    config.auth_token = answer.to_owned();
                }
                SetupStage::AskStoragePath
            },
            SetupStage::AskStoragePath => {
                if given {
                    config.storage_path = answer.to_owned();
                }
                SetupStage::AskMaxStorage
            },
            SetupStage::AskMaxStorage => {
                if given {
                    match number {
                        None => SetupStage::Finished(Err(SetupError::NotANumber)),
                        Some(amount) => if amount.is_positive() {
                            config.max_storage_gib = amount;
                            SetupStage::AskWsUrl
                        } else {
                            SetupStage::Finished(Err(SetupError::NotPositive))
                        },
                    }
                } else {
                    SetupStage::AskWsUrl
                }
            },
            SetupStage::AskWsUrl => {
                if given {
                    config.ws_url = answer.to_owned();
                }
                SetupStage::AskSave
            },
            SetupStage::AskSave => {
                proof {
                    reveal_strlit("n");
                    reveal_strlit("no");
                }
                if refuses_to_save(text::to_lowercase(answer).as_str()) {
                    SetupStage::Finished(Ok(()))
                } else {
                    SetupStage::Save
                }
            },
            other => other,
        };
        Setup { config, stage }
    }

    /// Goes on with the line `input` that the user typed; `number` is the number it is without
    /// the white space around it, if it is one.
    pub fn answer(self, input: &str, number: Option<Gib>) -> (next: Setup)
        requires
            self.asks(),
        ensures
            self.leads_to(text::trimmed(input@), number, next),
    {
        let answer = text::trim(input);
        self.answer_trimmed(answer.as_str(), number)
    }

    /// Goes on when the configuration has been saved, or could not be.
    pub fn conclude(self, result: Result<(), SaveError>) -> (next: Setup)
        requires
            self.stage is Save,
        ensures
            next == (Setup {
                stage: match result {
                    Ok(_) => SetupStage::Finished(Ok(())),
                    Err(e) => SetupStage::Finished(Err(SetupError::Save(e))),
                },
                ..self
            }),
    {
        let Setup { config, .. } = self;
        let stage = match result {
            Ok(_) => SetupStage::Finished(Ok(())),
            Err(e) => SetupStage::Finished(Err(SetupError::Save(e))),
        };
        Setup { config, stage }
    }

    /// What the dialog prints at its end: that the configuration was saved, with what comes next,
    /// or that it was not.
    pub fn farewell(&self, saved: bool) -> (lines: Vec<Line>)
        ensures
            cli::line_views(lines@) == if saved {
                saved_lines(self.config)
            } else {
                seq![cli::said("Configuration not saved."@)]
            },
    {
        let mut lines = cli::no_lines();
        if !saved {
            cli::say(&mut lines, "Configuration not saved.");
            assert(cli::line_views(lines@) =~= seq![cli::said("Configuration not saved."@)]);
            return lines;
        }
        cli::say(&mut lines, "Configuration saved successfully!");
        cli::put(&mut lines, Line::Text(String::new()));
        if !self.config.is_ready() {
            cli::say(&mut lines, "Note: Node ID and Auth Token are required to connect to the backend.");
            cli::say(&mut lines, "You can obtain these by registering your node through the web interface.");
            cli::say(&mut lines, "Then run 'yourcloud_client setup' again to configure them.");
        } else {
            cli::say(&mut lines, "Your storage node is ready to start!");
            cli::say(&mut lines, "Run 'yourcloud_client start' to begin daemon mode.");
        }
        assert(cli::line_views(lines@) =~= saved_lines(self.config));
        lines
    }
}

/// The dialog asks its questions in order: `dialog[i]` became `dialog[i + 1]` with `answers[i]`
/// and `numbers[i]`.
pub open spec fn is_dialog(dialog: Seq<Setup>, answers: Seq<Seq<char>>, numbers: Seq<Option<Gib>>) -> bool {
    &&& dialog.len() == answers.len() + 1
    &&& numbers.len() == answers.len()
    &&& dialog[0].stage == SetupStage::AskNodeId
    &&& forall|i: int|
        0 <= i < answers.len() ==> (#[trigger] dialog[i]).asks() && dialog[i].leads_to(
            answers[i],
            numbers[i],
            dialog[i + 1],
        )
}

/// A user who only presses Enter keeps the whole configuration, and has it saved at the end.
pub proof fn enter_keeps_config(dialog: Seq<Setup>, answers: Seq<Seq<char>>, numbers: Seq<Option<Gib>>)
    requires
        is_dialog(dialog, answers, numbers),
        answers.len() == 6,
        forall|i: int| 0 <= i < 6 ==> (#[trigger] answers[i]).len() == 0,
    ensures
        dialog[6].stage == SetupStage::Save,
        config::same_config(dialog[6].config, dialog[0].config),
{
    assert(dialog[0].asks() && answers[0].len() == 0);
    assert(dialog[1].asks() && answers[1].len() == 0);
    assert(dialog[2].asks() && answers[2].len() == 0);
    assert(dialog[3].asks() && answers[3].len() == 0);
    assert(dialog[4].asks() && answers[4].len() == 0);
    assert(dialog[5].asks() && answers[5].len() == 0);
}

/// A user who answers every question gets what was answered: each answer goes to its own field.
pub proof fn answers_become_config(
    dialog: Seq<Setup>,
    answers: Seq<Seq<char>>,
    numbers: Seq<Option<Gib>>,
    amount: Gib,
)
    requires
        is_dialog(dialog, answers, numbers),
        answers.len() == 5,
        forall|i: int| 0 <= i < 5 ==> (#[trigger] answers[i]).len() > 0,
        numbers[3] == Some(amount),
        amount.is_positive_amount(),
    ensures
        dialog[5].stage == SetupStage::AskSave,
        dialog[5].config.node_id@ == answers[0],
        dialog[5].config.auth_token@ == answers[1],
        dialog[5].config.storage_path@ == answers[2],
        dialog[5].config.max_storage_gib == amount,
        dialog[5].config.ws_url@ == answers[4],
{
    assert(dialog[0].asks() && answers[0].len() > 0);
    assert(dialog[1].asks() && answers[1].len() > 0);
    assert(dialog[2].asks() && answers[2].len() > 0);
    assert(dialog[3].asks() && answers[3].len() > 0);
    assert(dialog[4].asks() && answers[4].len() > 0);
}

/// Nothing is saved that the user has refused, or before the user was asked.
pub proof fn only_confirmed_config_is_saved(setup: Setup, answer: Seq<char>, number: Option<Gib>, next: Setup)
    requires
        setup.asks(),
        setup.leads_to(answer, number, next),
        next.stage is Save,
    ensures
        setup.stage is AskSave,
        !refuses(text::lowercase(answer)),
        next.config == setup.config,
{
}

/// The dialog never takes an amount of storage that is not greater than zero.
pub proof fn storage_stays_positive(setup: Setup, answer: Seq<char>, number: Option<Gib>, next: Setup)
    requires
        setup.asks(),
        setup.leads_to(answer, number, next),
        setup.config.max_storage_gib.is_positive_amount(),
    ensures
        next.config.max_storage_gib.is_positive_amount(),
{
}

} // verus!
