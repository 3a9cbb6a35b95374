//! The configuration of the node.

use crate::gib::{Gib, DEFAULT_GIB_BITS, MAX_REASONABLE_GIB};
use crate::path;
use crate::text;
use vstd::arithmetic::power2::*;
use vstd::prelude::*;
use vstd::string::*;
use vstd::utf8::*;

verus! {

/// The longest node identifier, in bytes.
pub const MAX_NODE_ID_BYTES: u64 = 255;

/// The longest authentication token, in bytes.
pub const MAX_AUTH_TOKEN_BYTES: u64 = 1024;

/// The configuration of the node, as its file holds it.
#[derive(Debug)]
pub struct Config {
    pub node_id: String,
    pub auth_token: String,
    pub storage_path: String,
    pub max_storage_gib: Gib,
    pub ws_url: String,
}

/// What the environment says of where a user's files go: the home directory, the name of the
/// user, and the working directory, as far as they are known.
#[derive(Debug)]
pub struct Places {
    pub home: Option<String>,
    pub user: Option<String>,
    pub current_dir: Option<String>,
}

/// The default storage directory: `Project_YourCloud` in the home directory, in the directory
/// that bears the name of the user, in the working directory, or in `/tmp`, whichever is known
/// first.
pub open spec fn default_storage_path(places: Places) -> Seq<char> {
    match (places.home, places.user, places.current_dir) {
        (Some(home), _, _) => path::joined(home@, "Project_YourCloud"@),
        (None, Some(user), _) => "/home/"@ + user@ + "/Project_YourCloud"@,
        (None, None, Some(dir)) => path::joined(dir@, "Project_YourCloud"@),
        (None, None, None) => path::joined("/tmp"@, "Project_YourCloud"@),
    }
}

/// The default storage directory.
pub fn get_default_storage_path(places: &Places) -> (r: String)
    ensures
        r@ == default_storage_path(*places),
{
    match &places.home {
        Some(home) => path::join(home.as_str(), "Project_YourCloud"),
        None => match &places.user {
            Some(user) => text::concat3("/home/", user.as_str(), "/Project_YourCloud"),
            None => match &places.current_dir {
                Some(dir) => path::join(dir.as_str(), "Project_YourCloud"),
                None => path::join("/tmp", "Project_YourCloud"),
            },
        },
    }
}

impl Config {
    /// The configuration a node has before it is set up.
    pub fn default(places: &Places) -> (config: Config)
        ensures
            config.node_id@ == Seq::<char>::empty(),
            config.auth_token@ == Seq::<char>::empty(),
            config.storage_path@ == default_storage_path(*places),
            config.max_storage_gib == (Gib { bits: DEFAULT_GIB_BITS }),
            config.ws_url@ == Seq::<char>::empty(),
    {
        Config {
            node_id: String::new(),
            auth_token: String::new(),
            storage_path: get_default_storage_path(places),
            max_storage_gib: Gib { bits: DEFAULT_GIB_BITS },
            ws_url: String::new(),
        }
    }

    /// The node has an identifier and a token, without which it cannot connect.
    pub open spec fn has_credentials(self) -> bool {
        self.node_id@.len() > 0 && self.auth_token@.len() > 0
    }

    /// Has the node an identifier and a token?
    pub fn is_ready(&self) -> (yes: bool)
        ensures
            yes == self.has_credentials(),
    {
        !self.node_id.as_str().is_empty() && !self.auth_token.as_str().is_empty()
    }
}

/// Why a configuration is not accepted.
#[derive(Debug)]
pub enum ValidationError {
    PathNotAbsolute { storage_path: String },
    ZeroStorage,
    TooMuchStorage { max_storage_gib: Gib },
    PathTraversal,
    NodeIdTooLong,
    NodeIdCharacters,
    AuthTokenTooLong,
}

impl ValidationError {
    /// The text of `message`, where `amount` is how the configured storage limit is written.
    pub open spec fn text(self, amount: Seq<char>) -> Seq<char> {
        match self {
            ValidationError::PathNotAbsolute { storage_path } =>
                "storage_path must be an absolute path. Current: "@ + path::shown_path(storage_path@),
            ValidationError::ZeroStorage => "max_storage_gib must be greater than 0"@,
            ValidationError::TooMuchStorage { .. } =>
                "max_storage_gib is too large: "@ + amount + " GiB (maximum allowed: "@ + text::decimal(
                    MAX_REASONABLE_GIB as nat,
                ) + " GiB)"@,
            ValidationError::PathTraversal => "storage_path contains invalid path traversal sequences"@,
            ValidationError::NodeIdTooLong => "node_id is too long (max 255 characters)"@,
            ValidationError::NodeIdCharacters =>
                "node_id contains invalid characters (only alphanumeric, hyphens, and underscores allowed)"@,
            ValidationError::AuthTokenTooLong => "auth_token is too long (max 1024 characters)"@,
        }
    }

    /// The message to show for this error. `amount` is how the configured storage limit is
    /// written.
    pub fn message(&self, amount: &str) -> (r: String)
        ensures
            r@ == self.text(amount@),
    {
        match self {
            ValidationError::PathNotAbsolute { storage_path } => text::concat2(
                "storage_path must be an absolute path. Current: ",
                path::show_path(storage_path.as_str()).as_str(),
            ),
            ValidationError::ZeroStorage => "max_storage_gib must be greater than 0".to_owned(),
            ValidationError::TooMuchStorage { .. } => {
                let mut r = text::concat3("max_storage_gib is too large: ", amount, " GiB (maximum allowed: ");
                r.append(text::decimal_text(MAX_REASONABLE_GIB).as_str());
                r.append(" GiB)");
                r
            },
            ValidationError::PathTraversal =>
                "storage_path contains invalid path traversal sequences".to_owned(),
            ValidationError::NodeIdTooLong => "node_id is too long (max 255 characters)".to_owned(),
            ValidationError::NodeIdCharacters =>
                "node_id contains invalid characters (only alphanumeric, hyphens, and underscores allowed)".to_owned(),
            ValidationError::AuthTokenTooLong => "auth_token is too long (max 1024 characters)".to_owned(),
        }
    }
}

/// Every character of a node identifier is a letter, a number, a hyphen or an underscore.
pub open spec fn node_id_characters(id: Seq<char>) -> bool {
    forall|i: int| 0 <= i < id.len() ==> text::alphanumeric(#[trigger] id[i]) || id[i] == '-' || id[i] == '_'
}

/// The first thing that is wrong with `config`, if anything is. `characters_allowed` says whether
/// the characters of the node identifier are among the allowed ones.
pub open spec fn fault(config: Config, characters_allowed: bool) -> Option<ValidationError> {
    if !path::is_absolute_path(config.storage_path@) {
        Some(ValidationError::PathNotAbsolute { storage_path: config.storage_path })
    } else if config.max_storage_gib.is_zero_amount() {
        Some(ValidationError::ZeroStorage)
    } else if config.max_storage_gib.exceeds_whole(MAX_REASONABLE_GIB as nat) {
        Some(ValidationError::TooMuchStorage { max_storage_gib: config.max_storage_gib })
    } else if text::has_adjacent(config.storage_path@, '.', '.') {
        Some(ValidationError::PathTraversal)
    } else if encode_utf8(config.node_id@).len() > MAX_NODE_ID_BYTES {
        Some(ValidationError::NodeIdTooLong)
    } else if config.node_id@.len() > 0 && !characters_allowed {
        Some(ValidationError::NodeIdCharacters)
    } else if encode_utf8(config.auth_token@).len() > MAX_AUTH_TOKEN_BYTES {
        Some(ValidationError::AuthTokenTooLong)
    } else {
        None
    }
}

/// Are all characters of the node identifier `id` allowed?
pub fn has_node_id_characters(id: &str) -> (yes: bool)
    ensures
        yes == node_id_characters(id@),
{
    let v = text::chars_of(id);
    let mut i: usize = 0;
    while i < v.len()
        invariant
            v@ == id@,
            i <= v.len(),
            forall|j: int| 0 <= j < i ==> text::alphanumeric(#[trigger] v@[j]) || v@[j] == '-' || v@[j] == '_',
        decreases v.len() - i,
    {
        let c = v[i];
        if !(text::char_is_alphanumeric(c) || c == '-' || c == '_') {
            assert(id@[i as int] == c);
            return false;
        }
        i += 1;
    }
    true
}

/// The rules a configuration must keep, given whether the characters of its node identifier are
/// allowed.
pub fn validate_config_given(config: &Config, characters_allowed: bool) -> (r: Result<(), ValidationError>)
    ensures
        r == match fault(*config, characters_allowed) {
            Some(e) => Err::<(), ValidationError>(e),
            None => Ok::<(), ValidationError>(()),
        },
{
    if !path::is_absolute(config.storage_path.as_str()) {
        return Err(ValidationError::PathNotAbsolute { storage_path: config.storage_path.clone() });
    }
    if config.max_storage_gib.is_zero() {
        return Err(ValidationError::ZeroStorage);
    }
    if config.max_storage_gib.exceeds_reasonable() {
        return Err(ValidationError::TooMuchStorage { max_storage_gib: config.max_storage_gib });
    }
    if text::contains_adjacent(config.storage_path.as_str(), '.', '.') {
        return Err(ValidationError::PathTraversal);
    }
    if !config.node_id.as_str().is_empty() {
        if config.node_id.as_str().as_bytes().len() > 255 {
            return Err(ValidationError::NodeIdTooLong);
        }
        if !characters_allowed {
            return Err(ValidationError::NodeIdCharacters);
        }
    }
    if !config.auth_token.as_str().is_empty() {
        if config.auth_token.as_str().as_bytes().len() > 1024 {
            return Err(ValidationError::AuthTokenTooLong);
        }
    }
    Ok(())
}

/// Checks the configuration.
pub fn validate_config(config: &Config) -> (r: Result<(), ValidationError>)
    ensures
        r == match fault(*config, node_id_characters(config.node_id@)) {
            Some(e) => Err::<(), ValidationError>(e),
            None => Ok::<(), ValidationError>(()),
        },
{
    let characters_allowed = has_node_id_characters(config.node_id.as_str());
    validate_config_given(config, characters_allowed)
}

/// The storage directory: the one that is asked for, or the default one.
pub fn make_storage_directory(path: Option<String>, places: &Places) -> (r: Result<String, ValidationError>)
    ensures
        r matches Ok(p) && match path {
            Some(given) => p == given,
            None => p@ == default_storage_path(*places),
        },
{
    match path {
        Some(given) => Ok(given),
        None => Ok(get_default_storage_path(places)),
    }
}

/// The directory of the configuration file: `Project_YourCloud` in the directory for the user's
/// configuration, or in `/etc` where that is not known.
pub open spec fn config_directory(config_dir: Option<String>) -> Seq<char> {
    match config_dir {
        Some(dir) => path::joined(dir@, "Project_YourCloud"@),
        None => "/etc/Project_YourCloud"@,
    }
}

/// The configuration file.
pub open spec fn config_file(config_dir: Option<String>) -> Seq<char> {
    match config_dir {
        Some(dir) => path::joined(config_directory(config_dir), "config.toml"@),
        None => "/etc/Project_YourCloud/config.toml"@,
    }
}

/// The directory of the configuration file.
pub fn get_config_directory(config_dir: &Option<String>) -> (r: String)
    ensures
        r@ == config_directory(*config_dir),
{
    match config_dir {
        Some(dir) => path::join(dir.as_str(), "Project_YourCloud"),
        None => "/etc/Project_YourCloud".to_owned(),
    }
}

/// The configuration file.
pub fn get_config_path(config_dir: &Option<String>) -> (r: Result<String, ValidationError>)
    ensures
        r matches Ok(p) && p@ == config_file(*config_dir),
{
    match config_dir {
        Some(_) => Ok(path::join(get_config_directory(config_dir).as_str(), "config.toml")),
        None => Ok("/etc/Project_YourCloud/config.toml".to_owned()),
    }
}

/// Why there is no configuration to work with.
#[derive(Debug)]
pub enum LoadError {
    Missing,
    Read,
    Parse,
    Invalid(ValidationError),
}

impl LoadError {
    /// The text of `message`, where `amount` is how the configured storage limit is written.
    pub open spec fn text(self, amount: Seq<char>) -> Seq<char> {
        match self {
            LoadError::Missing =>
                "Configuration file does not exist. Please run the setup command to create it."@,
            LoadError::Read => "Failed to read config file"@,
            LoadError::Parse => "Failed to parse config file"@,
            LoadError::Invalid(e) => e.text(amount),
        }
    }

    /// The message to show for this error. `amount` is how the configured storage limit is
    /// written.
    pub fn message(&self, amount: &str) -> (r: String)
        ensures
            r@ == self.text(amount@),
    {
        match self {
            LoadError::Missing =>
                "Configuration file does not exist. Please run the setup command to create it.".to_owned(),
            LoadError::Read => "Failed to read config file".to_owned(),
            LoadError::Parse => "Failed to parse config file".to_owned(),
            LoadError::Invalid(e) => e.message(amount),
        }
    }
}

/// What comes next in loading the configuration.
#[derive(Debug)]
pub enum LoadStage {
    /// Ask whether the configuration file exists.
    CheckExists,
    /// Read the configuration file.
    ReadFile,
    /// Read the contents of the file as a configuration.
    Parse { contents: String },
    /// Nothing: this is the result.
    Finished(Result<Config, LoadError>),
}

/// The outcome of a stage of loading the configuration.
#[derive(Debug)]
pub enum LoadReply {
    /// For `CheckExists`.
    Exists(bool),
    /// For `ReadFile`: the contents, where they could be read.
    Contents(Option<String>),
    /// For `Parse`: the configuration, where the contents were one.
    Parsed(Option<Config>),
}

/// Begins to load the configuration.
pub fn load_config() -> (stage: LoadStage)
    ensures
        stage is CheckExists,
{
    LoadStage::CheckExists
}

impl LoadStage {
    /// `reply` is an outcome of this stage.
    pub open spec fn expects(self, reply: LoadReply) -> bool {
        match self {
            LoadStage::CheckExists => reply is Exists,
            LoadStage::ReadFile => reply is Contents,
            LoadStage::Parse { .. } => reply is Parsed,
            LoadStage::Finished(_) => false,
        }
    }

    /// What comes after this stage and its outcome `reply`. A configuration that is loaded keeps
    /// the rules.
    pub open spec fn after(self, reply: LoadReply) -> LoadStage {
        match (self, reply) {
            (LoadStage::CheckExists, LoadReply::Exists(true)) => LoadStage::ReadFile,
            (LoadStage::CheckExists, LoadReply::Exists(false)) => LoadStage::Finished(Err(LoadError::Missing)),
            (LoadStage::ReadFile, LoadReply::Contents(Some(contents))) => LoadStage::Parse { contents },
            (LoadStage::ReadFile, LoadReply::Contents(None)) => LoadStage::Finished(Err(LoadError::Read)),
            (LoadStage::Parse { .. }, LoadReply::Parsed(None)) => LoadStage::Finished(Err(LoadError::Parse)),
            (LoadStage::Parse { .. }, LoadReply::Parsed(Some(config))) =>
                match fault(config, node_id_characters(config.node_id@)) {
                    Some(e) => LoadStage::Finished(Err(LoadError::Invalid(e))),
                    None => LoadStage::Finished(Ok(config)),
                },
            (stage, _) => stage,
        }
    }

    /// Goes on with the outcome of this stage.
    pub fn resume(self, reply: LoadReply) -> (next: LoadStage)
        requires
            self.expects(reply),
        ensures
            next == self.after(reply),
    {
        match (self, reply) {
            (LoadStage::CheckExists, LoadReply::Exists(found)) => if found {
                LoadStage::ReadFile
            } else {
                LoadStage::Finished(Err(LoadError::Missing))
            },
            (LoadStage::ReadFile, LoadReply::Contents(read)) => match read {
                Some(contents) => LoadStage::Parse { contents },
                None => LoadStage::Finished(Err(LoadError::Read)),
            },
            (LoadStage::Parse { .. }, LoadReply::Parsed(parsed)) => match parsed {
                None => LoadStage::Finished(Err(LoadError::Parse)),
                Some(config) => match validate_config(&config) {
                    Ok(_) => LoadStage::Finished(Ok(config)),
                    Err(e) => LoadStage::Finished(Err(LoadError::Invalid(e))),
                },
            },
            (stage, _) => stage,
        }
    }
}

/// Why the configuration was not saved.
#[derive(Clone, Copy, Debug, PartialEq, Eq, Structural)]
pub enum SaveError {
    CreateDirectory,
    Serialize,
    Write,
}

impl SaveError {
    /// The text of `message`.
    pub open spec fn text(self) -> Seq<char> {
        match self {
            SaveError::CreateDirectory => "Failed to create config directory"@,
            SaveError::Serialize => "Failed to serialize config to TOML"@,
            SaveError::Write => "Failed to write config file"@,
        }
    }

    /// The message to show for this error.
    pub fn message(&self) -> (r: String)
        ensures
            r@ == self.text(),
    {
        match self {
            SaveError::CreateDirectory => "Failed to create config directory".to_owned(),
            SaveError::Serialize => "Failed to serialize config to TOML".to_owned(),
            SaveError::Write => "Failed to write config file".to_owned(),
        }
    }
}

/// What comes next in saving the configuration.
#[derive(Debug)]
pub enum SaveStage {
    /// Create this directory and those above it, where they do not exist.
    CreateDirectory { directory: String },
    /// Write the configuration down as text.
    Serialize,
    /// Write this text to the configuration file.
    WriteFile { contents: String },
    /// Nothing: this is the result.
    Finished(Result<(), SaveError>),
}

/// The outcome of a stage of saving the configuration.
#[derive(Debug)]
pub enum SaveReply {
    /// For `CreateDirectory` and `WriteFile`: whether it was done.
    Done(bool),
    /// For `Serialize`: the text, where there is one.
    Serialized(Option<String>),
}

/// Begins to save the configuration: the directory of its file comes first.
pub fn save_config(config_dir: &Option<String>) -> (stage: SaveStage)
    ensures
        stage matches SaveStage::CreateDirectory { directory } && directory@ == config_directory(*config_dir),
{
    SaveStage::CreateDirectory { directory: get_config_directory(config_dir) }
}

impl SaveStage {
    /// `reply` is an outcome of this stage.
    pub open spec fn expects(self, reply: SaveReply) -> bool {
        match self {
            SaveStage::CreateDirectory { .. } => reply is Done,
            SaveStage::Serialize => reply is Serialized,
            SaveStage::WriteFile { .. } => reply is Done,
            SaveStage::Finished(_) => false,
        }
    }

    /// What comes after this stage and its outcome `reply`.
    pub open spec fn after(self, reply: SaveReply) -> SaveStage {
        match (self, reply) {
            (SaveStage::CreateDirectory { .. }, SaveReply::Done(true)) => SaveStage::Serialize,
            (SaveStage::CreateDirectory { .. }, SaveReply::Done(false)) =>
                SaveStage::Finished(Err(SaveError::CreateDirectory)),
            (SaveStage::Serialize, SaveReply::Serialized(Some(contents))) => SaveStage::WriteFile { contents },
            (SaveStage::Serialize, SaveReply::Serialized(None)) => SaveStage::Finished(Err(SaveError::Serialize)),
            (SaveStage::WriteFile { .. }, SaveReply::Done(true)) => SaveStage::Finished(Ok(())),
            (SaveStage::WriteFile { .. }, SaveReply::Done(false)) => SaveStage::Finished(Err(SaveError::Write)),
            (stage, _) => stage,
        }
    }

    /// Goes on with the outcome of this stage.
    pub fn resume(self, reply: SaveReply) -> (next: SaveStage)
        requires
            self.expects(reply),
        ensures
            next == self.after(reply),
    {
        match (self, reply) {
            (SaveStage::CreateDirectory { .. }, SaveReply::Done(done)) => if done {
                SaveStage::Serialize
            } else {
                SaveStage::Finished(Err(SaveError::CreateDirectory))
            },
            (SaveStage::Serialize, SaveReply::Serialized(written)) => match written {
                Some(contents) => SaveStage::WriteFile { contents },
                None => SaveStage::Finished(Err(SaveError::Serialize)),
            },
            (SaveStage::WriteFile { .. }, SaveReply::Done(done)) => if done {
                SaveStage::Finished(Ok(()))
            } else {
                SaveStage::Finished(Err(SaveError::Write))
            },
            (stage, _) => stage,
        }
    }
}

/// The configuration file lies in the directory that is created for it.
pub proof fn config_file_is_in_directory(config_dir: Option<String>)
    ensures
        config_file(config_dir) == config_directory(config_dir) + "/config.toml"@,
{
    reveal_strlit("Project_YourCloud");
    reveal_strlit("config.toml");
    reveal_strlit("/config.toml");
    reveal_strlit("/etc/Project_YourCloud");
    reveal_strlit("/etc/Project_YourCloud/config.toml");
    let dir = config_directory(config_dir);
    assert(dir.len() > 0 && dir.last() != '/');
    assert(config_file(config_dir) =~= dir + "/config.toml"@);
}

/// Two configurations that read the same.
pub open spec fn same_config(a: Config, b: Config) -> bool {
    &&& a.node_id@ == b.node_id@
    &&& a.auth_token@ == b.auth_token@
    &&& a.storage_path@ == b.storage_path@
    &&& a.max_storage_gib == b.max_storage_gib
    &&& a.ws_url@ == b.ws_url@
}

/// A text that is read as a configuration: the configuration it holds, if it holds one.
pub type ConfigReader = spec_fn(Seq<char>) -> Option<Config>;

/// The stages of saving a configuration and their outcomes.
pub open spec fn is_saving(config_dir: Option<String>, stages: Seq<SaveStage>, replies: Seq<SaveReply>) -> bool {
    &&& stages.len() == replies.len() + 1
    &&& stages[0] matches SaveStage::CreateDirectory { directory } && directory@ == config_directory(config_dir)
    &&& forall|i: int|
        0 <= i < replies.len() ==> #[trigger] stages[i].expects(replies[i]) && stages[i + 1] == stages[i].after(
            replies[i],
        )
}

/// The stages of loading a configuration and their outcomes.
pub open spec fn is_loading(stages: Seq<LoadStage>, replies: Seq<LoadReply>) -> bool {
    &&& stages.len() == replies.len() + 1
    &&& stages[0] is CheckExists
    &&& forall|i: int|
        0 <= i < replies.len() ==> #[trigger] stages[i].expects(replies[i]) && stages[i + 1] == stages[i].after(
            replies[i],
        )
}

/// The contents of the configuration file when these stages of saving are over, where it held
/// `before`: the last text that was written.
pub open spec fn file_after(
    before: Option<Seq<char>>,
    stages: Seq<SaveStage>,
    replies: Seq<SaveReply>,
    n: int,
) -> Option<Seq<char>>
    decreases n,
{
    if n <= 0 {
        before
    } else {
        match (stages[n - 1], replies[n - 1]) {
            (SaveStage::WriteFile { contents }, SaveReply::Done(true)) => Some(contents@),
            _ => file_after(before, stages, replies, n - 1),
        }
    }
}

/// The configuration file is `file`, it can be read, and every question of loading was answered so;
/// `reader` reads its contents.
pub open spec fn file_answered(
    stages: Seq<LoadStage>,
    replies: Seq<LoadReply>,
    file: Option<Seq<char>>,
    reader: ConfigReader,
) -> bool {
    forall|i: int|
        0 <= i < replies.len() ==> match #[trigger] stages[i] {
            LoadStage::CheckExists => replies[i] == LoadReply::Exists(file is Some),
            LoadStage::ReadFile => replies[i] matches LoadReply::Contents(Some(contents)) && file == Some(contents@),
            LoadStage::Parse { contents } => replies[i] == LoadReply::Parsed(reader(contents@)),
            LoadStage::Finished(_) => true,
        }
}

/// What is loaded is what the file holds: without a file there is nothing, a file that holds no
/// configuration is an error, and a configuration is loaded as it is exactly when it keeps the
/// rules; the first rule that it breaks is told otherwise.
pub proof fn load_is_what_the_file_holds(
    stages: Seq<LoadStage>,
    replies: Seq<LoadReply>,
    file: Option<Seq<char>>,
    reader: ConfigReader,
)
    requires
        is_loading(stages, replies),
        file_answered(stages, replies, file, reader),
        stages.last() is Finished,
    ensures
        stages.last() == LoadStage::Finished(
            match file {
                None => Err(LoadError::Missing),
                Some(contents) => match reader(contents) {
                    None => Err(LoadError::Parse),
                    Some(config) => match fault(config, node_id_characters(config.node_id@)) {
                        Some(e) => Err(LoadError::Invalid(e)),
                        None => Ok(config),
                    },
                },
            },
        ),
{
    assert(stages[0].expects(replies[0]));
    if stages.len() > 2 {
        assert(stages[1].expects(replies[1]));
    }
    if stages.len() > 3 {
        assert(stages[2].expects(replies[2]));
    }
    if stages.len() > 4 {
        assert(stages[3].expects(replies[3]));
    }
}

/// Whatever the disk says, no configuration is loaded that breaks a rule.
pub proof fn loaded_config_keeps_the_rules(stages: Seq<LoadStage>, replies: Seq<LoadReply>, config: Config)
    requires
        is_loading(stages, replies),
        stages.last() == LoadStage::Finished(Ok(config)),
    ensures
        fault(config, node_id_characters(config.node_id@)) is None,
{
    let last = stages.len() - 2;
    assert(stages[last].expects(replies[last]));
}

/// When a configuration has been saved, its file holds the text it was written down as.
proof fn saved_text_is_in_the_file(
    config_dir: Option<String>,
    stages: Seq<SaveStage>,
    replies: Seq<SaveReply>,
    before: Option<Seq<char>>,
) -> (written: String)
    requires
        is_saving(config_dir, stages, replies),
        stages.last() == SaveStage::Finished(Ok(())),
    ensures
        replies.len() == 3,
        replies[1] == SaveReply::Serialized(Some(written)),
        file_after(before, stages, replies, 3) == Some(written@),
{
    assert(stages[0].expects(replies[0]));
    if stages.len() > 2 {
        assert(stages[1].expects(replies[1]));
    }
    if stages.len() > 3 {
        assert(stages[2].expects(replies[2]));
    }
    if stages.len() > 4 {
        assert(stages[3].expects(replies[3]));
    }
    match stages[2] {
        SaveStage::WriteFile { contents } => contents,
        _ => arbitrary(),
    }
}

/// A saved configuration loads back. When saving has succeeded and the file has not changed since,
/// loading gives a configuration that is the same in every field, exactly when the saved one keeps
/// the rules; otherwise loading tells the rule that the saved one breaks. This takes a written form
/// that reads back as what was written down.
pub proof fn saved_config_loads_back(
    config: Config,
    config_dir: Option<String>,
    saving: Seq<SaveStage>,
    save_replies: Seq<SaveReply>,
    before: Option<Seq<char>>,
    loading: Seq<LoadStage>,
    load_replies: Seq<LoadReply>,
    reader: ConfigReader,
)
    requires
        is_saving(config_dir, saving, save_replies),
        saving.last() == SaveStage::Finished(Ok(())),
        forall|i: int, written: String|
            0 <= i < save_replies.len() && #[trigger] save_replies[i] == SaveReply::Serialized(Some(written)) ==> (
            #[trigger] reader(written@) matches Some(read) && same_config(read, config)),
        is_loading(loading, load_replies),
        file_answered(
            loading,
            load_replies,
            file_after(before, saving, save_replies, save_replies.len() as int),
            reader,
        ),
        loading.last() is Finished,
    ensures
        match fault(config, node_id_characters(config.node_id@)) {
            None => loading.last() matches LoadStage::Finished(Ok(loaded)) && same_config(loaded, config),
            Some(e) => loading.last() matches LoadStage::Finished(Err(LoadError::Invalid(told))) && forall|
                amount: Seq<char>,
            | #[trigger] told.text(amount) == e.text(amount),
        },
{
    let written = saved_text_is_in_the_file(config_dir, saving, save_replies, before);
    assert(reader(written@) is Some);
    load_is_what_the_file_holds(loading, load_replies, Some(written@), reader);
}

/// A configuration the node accepts names its storage directory from the root, and its limit is
/// far from the end of the range of the counters.
pub proof fn accepted_config_is_sound(config: Config, characters_allowed: bool)
    requires
        fault(config, characters_allowed) is None,
    ensures
        path::is_absolute_path(config.storage_path@),
        !text::has_adjacent(config.storage_path@, '.', '.'),
        config.max_storage_gib.in_bytes() < u64::MAX,
{
    config.max_storage_gib.accepted_limit_fits();
}

/// A node that has not been set up has a configuration the rules accept, as long as its default
/// storage directory is absolute and free of `..`: what is missing is only noticed when the node
/// is to connect.
pub proof fn default_config_is_accepted(config: Config, places: Places)
    requires
        config.node_id@.len() == 0,
        config.auth_token@.len() == 0,
        config.storage_path@ == default_storage_path(places),
        config.max_storage_gib == (Gib { bits: DEFAULT_GIB_BITS }),
        path::is_absolute_path(default_storage_path(places)),
        !text::has_adjacent(default_storage_path(places), '.', '.'),
    ensures
        fault(config, node_id_characters(config.node_id@)) is None,
        !config.has_credentials(),
{
    let amount = Gib { bits: DEFAULT_GIB_BITS };
    lemma2_to64();
    lemma2_to64_rest();
    lemma_pow2_adds(3, 1027);
    lemma_pow2_adds(50, 1030);
    lemma_pow2_adds(20, 1074);
    lemma_pow2_adds(14, 1080);
    lemma_pow2_pos(1027);
    lemma_pow2_pos(1080);
    assert(amount.exponent() == 1028);
    assert(amount.fraction() == 0x4_0000_0000_0000);
    assert(amount.magnitude() == 0x14_0000_0000_0000 * pow2(1027));
}

} // verus!
