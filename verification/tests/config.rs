use yourcloud_client::config::{
    get_config_directory, get_config_path, get_default_storage_path, has_node_id_characters, load_config,
    make_storage_directory, save_config, validate_config, validate_config_given, Config, LoadError, LoadReply,
    LoadStage, Places, SaveError, SaveReply, SaveStage, ValidationError,
};
use yourcloud_client::gib::Gib;

fn places(home: Option<&str>, user: Option<&str>, current_dir: Option<&str>) -> Places {
    Places {
        home: home.map(str::to_string),
        user: user.map(str::to_string),
        current_dir: current_dir.map(str::to_string),
    }
}

fn gib(x: f64) -> Gib {
    Gib { bits: x.to_bits() }
}

fn config() -> Config {
    Config {
        node_id: "node-1_a".to_string(),
        auth_token: "token".to_string(),
        storage_path: "/data".to_string(),
        max_storage_gib: gib(40.0),
        ws_url: String::new(),
    }
}

fn message(config: &Config) -> String {
    let amount = format!("{}", f64::from_bits(config.max_storage_gib.bits));
    validate_config(config).unwrap_err().message(&amount)
}

#[test]
fn default_directory_depends_on_what_is_known() {
    assert_eq!(
        get_default_storage_path(&places(Some("/home/u"), Some("v"), Some("/tmp"))),
        "/home/u/Project_YourCloud"
    );
    assert_eq!(get_default_storage_path(&places(None, Some("v"), Some("/w"))), "/home/v/Project_YourCloud");
    assert_eq!(get_default_storage_path(&places(None, None, Some("/w"))), "/w/Project_YourCloud");
    assert_eq!(get_default_storage_path(&places(None, None, None)), "/tmp/Project_YourCloud");
}

#[test]
fn default_config_is_valid_but_not_ready() {
    let config = Config::default(&places(Some("/home/u"), None, None));
    assert_eq!(config.node_id, "");
    assert_eq!(config.auth_token, "");
    assert_eq!(config.ws_url, "");
    assert_eq!(f64::from_bits(config.max_storage_gib.bits), 40.0);
    assert!(validate_config(&config).is_ok());
    assert!(!config.is_ready());
}

#[test]
fn readiness_needs_both_credentials() {
    assert!(config().is_ready());
    let mut c = config();
    c.node_id.clear();
    assert!(!c.is_ready());
    let mut c = config();
    c.auth_token.clear();
    assert!(!c.is_ready());
}

#[test]
fn relative_storage_path_is_refused() {
    let mut c = config();
    c.storage_path = "data".to_string();
    assert!(matches!(validate_config(&c), Err(ValidationError::PathNotAbsolute { .. })));
    assert_eq!(message(&c), "storage_path must be an absolute path. Current: \"data\"");
}

#[test]
fn zero_storage_is_refused() {
    for x in [0.0, -0.0] {
        let mut c = config();
        c.max_storage_gib = gib(x);
        assert!(matches!(validate_config(&c), Err(ValidationError::ZeroStorage)));
        assert_eq!(message(&c), "max_storage_gib must be greater than 0");
    }
}

#[test]
fn too_much_storage_is_refused() {
    let mut c = config();
    c.max_storage_gib = gib(1048576.5);
    assert!(matches!(validate_config(&c), Err(ValidationError::TooMuchStorage { .. })));
    assert_eq!(message(&c), "max_storage_gib is too large: 1048576.5 GiB (maximum allowed: 1048576 GiB)");
    c.max_storage_gib = gib(1048576.0);
    assert!(validate_config(&c).is_ok());
    c.max_storage_gib = gib(f64::INFINITY);
    assert!(validate_config(&c).is_err());
}

#[test]
fn traversal_in_storage_path_is_refused() {
    let mut c = config();
    c.storage_path = "/data/../etc".to_string();
    assert!(matches!(validate_config(&c), Err(ValidationError::PathTraversal)));
    assert_eq!(message(&c), "storage_path contains invalid path traversal sequences");
    c.storage_path = "/data/a..b".to_string();
    assert!(validate_config(&c).is_err());
}

#[test]
fn node_id_is_checked() {
    let mut c = config();
    c.node_id = "x".repeat(255);
    assert!(validate_config(&c).is_ok());
    c.node_id = "x".repeat(256);
    assert!(matches!(validate_config(&c), Err(ValidationError::NodeIdTooLong)));
    assert_eq!(message(&c), "node_id is too long (max 255 characters)");
    c.node_id = "é".repeat(128);
    assert!(matches!(validate_config(&c), Err(ValidationError::NodeIdTooLong)));
    for id in ["a b", "a.b", "a/b", "a:b", "a\n"] {
        c.node_id = id.to_string();
        assert!(matches!(validate_config(&c), Err(ValidationError::NodeIdCharacters)), "{:?}", id);
    }
    assert_eq!(
        message(&c),
        "node_id contains invalid characters (only alphanumeric, hyphens, and underscores allowed)"
    );
    c.node_id = "Ünïcode-9_".to_string();
    assert!(validate_config(&c).is_ok());
}

#[test]
fn node_id_characters_are_letters_numbers_and_two_more() {
    for id in ["", "abc", "ABC-123_x", "é٣", "a b", "-", "*"] {
        let expected = id.chars().all(|c| c.is_alphanumeric() || c == '-' || c == '_');
        assert_eq!(has_node_id_characters(id), expected, "{:?}", id);
    }
}

#[test]
fn rules_apply_whatever_the_characters_are() {
    let mut c = config();
    assert!(matches!(validate_config_given(&c, false), Err(ValidationError::NodeIdCharacters)));
    assert!(validate_config_given(&c, true).is_ok());
    c.node_id.clear();
    assert!(validate_config_given(&c, false).is_ok());
}

#[test]
fn long_token_is_refused() {
    let mut c = config();
    c.auth_token = "t".repeat(1024);
    assert!(validate_config(&c).is_ok());
    c.auth_token = "t".repeat(1025);
    assert!(matches!(validate_config(&c), Err(ValidationError::AuthTokenTooLong)));
    assert_eq!(message(&c), "auth_token is too long (max 1024 characters)");
}

#[test]
fn first_fault_is_told() {
    let mut c = config();
    c.storage_path = "data/..".to_string();
    c.max_storage_gib = gib(0.0);
    c.node_id = "a b".to_string();
    assert!(matches!(validate_config(&c), Err(ValidationError::PathNotAbsolute { .. })));
    c.storage_path = "/data/..".to_string();
    assert!(matches!(validate_config(&c), Err(ValidationError::ZeroStorage)));
    c.max_storage_gib = gib(1.0);
    assert!(matches!(validate_config(&c), Err(ValidationError::PathTraversal)));
}

#[test]
fn given_directory_is_taken() {
    let p = places(Some("/home/u"), None, None);
    assert_eq!(make_storage_directory(Some("/x".to_string()), &p).unwrap(), "/x");
    assert_eq!(make_storage_directory(None, &p).unwrap(), "/home/u/Project_YourCloud");
}

#[test]
fn configuration_file_lies_in_its_directory() {
    let dir = Some("/home/u/.config".to_string());
    assert_eq!(get_config_directory(&dir), "/home/u/.config/Project_YourCloud");
    assert_eq!(get_config_path(&dir).unwrap(), "/home/u/.config/Project_YourCloud/config.toml");
    assert_eq!(get_config_directory(&None), "/etc/Project_YourCloud");
    assert_eq!(get_config_path(&None).unwrap(), "/etc/Project_YourCloud/config.toml");
}

#[test]
fn configuration_is_loaded_and_checked() {
    let stage = load_config();
    assert!(matches!(stage, LoadStage::CheckExists));
    let stage = stage.resume(LoadReply::Exists(true));
    assert!(matches!(stage, LoadStage::ReadFile));
    let stage = stage.resume(LoadReply::Contents(Some("text".to_string())));
    match &stage {
        LoadStage::Parse { contents } => assert_eq!(contents, "text"),
        _ => panic!("not parsed"),
    }
    match stage.resume(LoadReply::Parsed(Some(config()))) {
        LoadStage::Finished(Ok(c)) => assert_eq!(c.node_id, "node-1_a"),
        _ => panic!("not loaded"),
    }
}

fn load_error(stage: LoadStage) -> String {
    match stage {
        LoadStage::Finished(Err(e)) => e.message("0"),
        _ => panic!("not failed"),
    }
}

#[test]
fn failures_to_load_are_told() {
    assert_eq!(
        load_error(load_config().resume(LoadReply::Exists(false))),
        "Configuration file does not exist. Please run the setup command to create it."
    );
    let read = load_config().resume(LoadReply::Exists(true));
    assert_eq!(load_error(read.resume(LoadReply::Contents(None))), "Failed to read config file");
    let parse = load_config().resume(LoadReply::Exists(true)).resume(LoadReply::Contents(Some(String::new())));
    assert_eq!(load_error(parse.resume(LoadReply::Parsed(None))), "Failed to parse config file");
    let parse = load_config().resume(LoadReply::Exists(true)).resume(LoadReply::Contents(Some(String::new())));
    let mut c = config();
    c.max_storage_gib = gib(0.0);
    let failed = parse.resume(LoadReply::Parsed(Some(c)));
    assert!(matches!(&failed, LoadStage::Finished(Err(LoadError::Invalid(ValidationError::ZeroStorage)))));
    assert_eq!(load_error(failed), "max_storage_gib must be greater than 0");
}

#[test]
fn configuration_is_saved_in_order() {
    let stage = save_config(&Some("/c".to_string()));
    match &stage {
        SaveStage::CreateDirectory { directory } => assert_eq!(directory, "/c/Project_YourCloud"),
        _ => panic!("no directory"),
    }
    let stage = stage.resume(SaveReply::Done(true));
    assert!(matches!(stage, SaveStage::Serialize));
    let stage = stage.resume(SaveReply::Serialized(Some("toml".to_string())));
    match &stage {
        SaveStage::WriteFile { contents } => assert_eq!(contents, "toml"),
        _ => panic!("not written"),
    }
    assert!(matches!(stage.resume(SaveReply::Done(true)), SaveStage::Finished(Ok(()))));
}

#[test]
fn failures_to_save_are_told() {
    let message = |stage: SaveStage| match stage {
        SaveStage::Finished(Err(e)) => e.message(),
        _ => panic!("not failed"),
    };
    let begin = || save_config(&None);
    assert_eq!(message(begin().resume(SaveReply::Done(false))), "Failed to create config directory");
    let serialize = begin().resume(SaveReply::Done(true));
    assert_eq!(message(serialize.resume(SaveReply::Serialized(None))), "Failed to serialize config to TOML");
    let write = begin().resume(SaveReply::Done(true)).resume(SaveReply::Serialized(Some(String::new())));
    assert_eq!(message(write.resume(SaveReply::Done(false))), "Failed to write config file");
    assert_eq!(SaveError::Write.message(), "Failed to write config file");
}

fn save_and_load(saved: Config) -> LoadStage {
    let text = "the written form".to_string();
    let stage = save_config(&Some("/etc".to_string()));
    let stage = stage.resume(SaveReply::Done(true));
    let stage = stage.resume(SaveReply::Serialized(Some(text)));
    let file = match &stage {
        SaveStage::WriteFile { contents } => contents.clone(),
        _ => panic!("not written"),
    };
    assert!(matches!(stage.resume(SaveReply::Done(true)), SaveStage::Finished(Ok(()))));
    let stage = load_config().resume(LoadReply::Exists(true)).resume(LoadReply::Contents(Some(file)));
    let read = match &stage {
        LoadStage::Parse { contents } if contents == "the written form" => Some(saved),
        _ => None,
    };
    stage.resume(LoadReply::Parsed(read))
}

#[test]
fn saved_config_is_loaded_back() {
    match save_and_load(config()) {
        LoadStage::Finished(Ok(loaded)) => {
            assert_eq!(loaded.node_id, "node-1_a");
            assert_eq!(loaded.auth_token, "token");
            assert_eq!(loaded.storage_path, "/data");
            assert_eq!(loaded.max_storage_gib, gib(40.0));
            assert_eq!(loaded.ws_url, "");
        }
        _ => panic!("not loaded"),
    }
}

#[test]
fn saved_config_that_breaks_a_rule_is_not_loaded_back() {
    let broken = Config { max_storage_gib: gib(0.0), ..config() };
    match save_and_load(broken) {
        LoadStage::Finished(Err(LoadError::Invalid(e))) => assert!(matches!(e, ValidationError::ZeroStorage)),
        _ => panic!("loaded"),
    }
}
