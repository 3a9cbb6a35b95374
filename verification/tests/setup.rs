use yourcloud_client::cli::Line;
use yourcloud_client::config::{Config, Places, SaveError};
use yourcloud_client::gib::Gib;
use yourcloud_client::setup::{
    greeting, interactive_setup, refuses_to_save, Prompt, Setup, SetupError, SetupStage,
};

fn gib(x: f64) -> Gib {
    Gib { bits: x.to_bits() }
}

fn nowhere() -> Places {
    Places { home: None, user: None, current_dir: None }
}

fn config() -> Config {
    Config {
        node_id: "node".to_string(),
        auth_token: "token".to_string(),
        storage_path: "/data".to_string(),
        max_storage_gib: gib(2.5),
        ws_url: "ws://local".to_string(),
    }
}

fn prompt(setup: &Setup) -> String {
    match setup.prompt() {
        Some(Prompt::Text(t)) => t,
        Some(Prompt::Amount(t, amount)) => format!("{} [{}]: ", t, f64::from_bits(amount.bits)),
        None => panic!("no prompt"),
    }
}

fn texts(lines: Vec<Line>) -> Vec<String> {
    lines
        .into_iter()
        .map(|line| match line {
            Line::Text(t) => t,
            Line::Amount(t, amount) => format!("{}{:.2} GiB", t, f64::from_bits(amount.bits)),
            _ => panic!("unexpected"),
        })
        .collect()
}

fn answer(setup: Setup, input: &str) -> Setup {
    let number = input.trim().parse::<f64>().ok().map(gib);
    setup.answer(input, number)
}

#[test]
fn questions_show_what_is_configured() {
    let mut setup = interactive_setup(Some(config()), &nowhere());
    for expected in [
        "Node ID [node]: ",
        "Auth Token [configured]: ",
        "Storage Path [/data]: ",
        "Maximum Storage (GiB) [2.5]: ",
        "WebSocket URL [ws://local]: ",
        "\nSave this configuration? [Y/n]: ",
    ] {
        assert_eq!(prompt(&setup), expected);
        setup = answer(setup, "\n");
    }
    assert!(matches!(setup.stage, SetupStage::Save));
    assert!(setup.prompt().is_none());
}

#[test]
fn questions_of_a_new_node_show_defaults() {
    let mut setup = interactive_setup(None, &nowhere());
    for expected in [
        "Node ID: ",
        "Auth Token: ",
        "Storage Path [/tmp/Project_YourCloud]: ",
        "Maximum Storage (GiB) [40]: ",
        "WebSocket URL [default: wss://wss.project-yourcloud.me]: ",
    ] {
        assert_eq!(prompt(&setup), expected);
        setup = answer(setup, "");
    }
}

#[test]
fn enter_keeps_everything() {
    let mut setup = interactive_setup(Some(config()), &nowhere());
    for _ in 0..6 {
        setup = answer(setup, " \r\n");
    }
    assert!(matches!(setup.stage, SetupStage::Save));
    let c = setup.config;
    assert_eq!(
        (c.node_id.as_str(), c.auth_token.as_str(), c.storage_path.as_str(), c.ws_url.as_str()),
        ("node", "token", "/data", "ws://local")
    );
    assert_eq!(c.max_storage_gib, gib(2.5));
}

#[test]
fn answers_go_to_their_fields() {
    let mut setup = interactive_setup(Some(config()), &nowhere());
    for input in ["  n2\n", "t2\n", "/d2\n", " 7.25 \n", "ws://two\n"] {
        setup = answer(setup, input);
    }
    assert!(matches!(setup.stage, SetupStage::AskSave));
    let c = setup.config;
    assert_eq!(
        (c.node_id.as_str(), c.auth_token.as_str(), c.storage_path.as_str(), c.ws_url.as_str()),
        ("n2", "t2", "/d2", "ws://two")
    );
    assert_eq!(c.max_storage_gib, gib(7.25));
}

fn at_amount() -> Setup {
    let mut setup = interactive_setup(Some(config()), &nowhere());
    for _ in 0..3 {
        setup = answer(setup, "\n");
    }
    setup
}

#[test]
fn amount_must_be_a_positive_number() {
    for input in ["0", "-1", "-0", "nan", "NaN", "-inf"] {
        let setup = answer(at_amount(), input);
        match setup.stage {
            SetupStage::Finished(Err(e)) => assert_eq!(e.message(), "Maximum storage must be greater than 0"),
            _ => panic!("accepted {}", input),
        }
        assert_eq!(setup.config.max_storage_gib, gib(2.5));
    }
    for input in ["many", "1,5", "1 GiB"] {
        match answer(at_amount(), input).stage {
            SetupStage::Finished(Err(e)) => assert_eq!(e.message(), "Invalid number format for maximum storage"),
            _ => panic!("accepted {}", input),
        }
    }
    assert!(matches!(answer(at_amount(), "1e-3").stage, SetupStage::AskWsUrl));
    assert!(matches!(answer(at_amount(), "inf").stage, SetupStage::AskWsUrl));
}

fn at_save() -> Setup {
    Setup { config: config(), stage: SetupStage::AskSave }
}

#[test]
fn refusal_is_recognised_in_any_case() {
    for input in ["n\n", "N\n", " no ", "NO", "No\r\n", "nO"] {
        assert!(matches!(answer(at_save(), input).stage, SetupStage::Finished(Ok(()))), "{:?}", input);
    }
    for input in ["", "\n", "y", "yes", "nope", "nn", "none", "è"] {
        assert!(matches!(answer(at_save(), input).stage, SetupStage::Save), "{:?}", input);
    }
}

#[test]
fn refusal_is_one_of_two_words() {
    assert!(refuses_to_save("n"));
    assert!(refuses_to_save("no"));
    assert!(!refuses_to_save(""));
    assert!(!refuses_to_save("N"));
}

#[test]
fn trimmed_answers_are_taken_as_they_are() {
    let setup = interactive_setup(Some(config()), &nowhere());
    assert_eq!(setup.answer_trimmed("other", None).config.node_id, "other");
}

#[test]
fn dialog_ends_with_the_save() {
    let setup = Setup { config: config(), stage: SetupStage::Save };
    assert!(matches!(setup.conclude(Ok(())).stage, SetupStage::Finished(Ok(()))));
    let setup = Setup { config: config(), stage: SetupStage::Save };
    match setup.conclude(Err(SaveError::Write)).stage {
        SetupStage::Finished(Err(e)) => {
            assert_eq!(e, SetupError::Save(SaveError::Write));
            assert_eq!(e.message(), "Failed to save configuration");
        }
        _ => panic!("not failed"),
    }
}

#[test]
fn greeting_tells_whether_there_was_a_configuration() {
    assert_eq!(
        texts(greeting(true)),
        vec![
            "=== Project YourCloud Storage Client Setup ===",
            "",
            "Found existing configuration. Current values will be shown in [brackets].",
            "",
        ]
    );
    assert_eq!(texts(greeting(false))[2], "No existing configuration found. Creating new configuration.");
}

#[test]
fn summary_shows_the_configuration() {
    assert_eq!(
        texts(at_save().summary()),
        vec![
            "",
            "=== Configuration Summary ===",
            "Node ID: node",
            "Auth Token: Configured",
            "Storage Path: \"/data\"",
            "Max Storage: 2.50 GiB",
            "WebSocket URL: ws://local",
        ]
    );
    let summary = texts(interactive_setup(None, &nowhere()).summary());
    assert_eq!(summary[2], "Node ID: ");
    assert_eq!(summary[3], "Auth Token: Not configured");
    assert_eq!(summary[6], "WebSocket URL: Default");
}

#[test]
fn farewell_tells_what_comes_next() {
    assert_eq!(texts(at_save().farewell(false)), vec!["Configuration not saved."]);
    assert_eq!(
        texts(at_save().farewell(true)),
        vec![
            "Configuration saved successfully!",
            "",
            "Your storage node is ready to start!",
            "Run 'yourcloud_client start' to begin daemon mode.",
        ]
    );
    assert_eq!(
        texts(interactive_setup(None, &nowhere()).farewell(true)),
        vec![
            "Configuration saved successfully!",
            "",
            "Note: Node ID and Auth Token are required to connect to the backend.",
            "You can obtain these by registering your node through the web interface.",
            "Then run 'yourcloud_client setup' again to configure them.",
        ]
    );
}
