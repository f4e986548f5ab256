use superterminal::cli::{handle_command, Cli, CommandOutcome, Commands, Route};
use superterminal::config::{Config, Temperature};
use superterminal::error::SuperTerminalError;

fn temperature(value: f32) -> Temperature {
    Temperature::from_bits(value.to_bits())
}

fn stored() -> Config {
    Config {
        api_key: "sk-test".to_string(),
        model: "gpt-4".to_string(),
        max_tokens: 150,
        temperature: temperature(0.3),
    }
}

fn config_command(
    model: Option<&str>,
    max_tokens: Option<u32>,
    temperature: Option<Temperature>,
    show: bool,
) -> Commands {
    Commands::Config { model: model.map(|m| m.to_string()), max_tokens, temperature, show }
}

#[test]
fn route_prefers_the_subcommand() {
    let cli = Cli {
        query: Some("list files".to_string()),
        yes: true,
        verbose: false,
        command: Some(config_command(None, Some(10), None, false)),
    };
    match cli.route() {
        Route::Command(Commands::Config { model, max_tokens, temperature, show }) => {
            assert_eq!(model, None);
            assert_eq!(max_tokens, Some(10));
            assert_eq!(temperature, None);
            assert!(!show);
        }
        other => panic!("{:?}", other),
    }
}

#[test]
fn route_takes_the_query_with_its_flags() {
    for (yes, verbose) in [(false, false), (true, false), (false, true), (true, true)] {
        let cli = Cli { query: Some("list files".to_string()), yes, verbose, command: None };
        match cli.route() {
            Route::Query { query, auto_yes, verbose: wordy } => {
                assert_eq!(query, "list files");
                assert_eq!(auto_yes, yes);
                assert_eq!(wordy, verbose);
            }
            other => panic!("{:?}", other),
        }
    }
}

#[test]
fn route_without_query_or_subcommand_is_help() {
    let cli = Cli { query: None, yes: true, verbose: true, command: None };
    assert!(matches!(cli.route(), Route::Help));
}

#[test]
fn config_show_sums_up_the_settings() {
    match handle_command(config_command(None, None, None, true), stored()).unwrap() {
        CommandOutcome::Shown(summary) => {
            assert_eq!(summary.model, "gpt-4");
            assert_eq!(summary.max_tokens, 150);
            assert_eq!(f32::from_bits(summary.temperature.to_bits()), 0.3);
            assert!(summary.api_key_set);
        }
        other => panic!("{:?}", other),
    }
    match handle_command(config_command(None, None, None, true), Config::default()).unwrap() {
        CommandOutcome::Shown(summary) => assert!(!summary.api_key_set),
        other => panic!("{:?}", other),
    }
}

#[test]
fn config_show_goes_before_any_change() {
    let command = config_command(Some("gpt-4o"), Some(9), Some(temperature(3.0)), true);
    match handle_command(command, stored()).unwrap() {
        CommandOutcome::Shown(summary) => {
            assert_eq!(summary.model, "gpt-4");
            assert_eq!(summary.max_tokens, 150);
            assert_eq!(f32::from_bits(summary.temperature.to_bits()), 0.3);
        }
        other => panic!("{:?}", other),
    }
}

#[test]
fn config_update_is_stored_as_a_whole() {
    let command = config_command(Some("gpt-4o"), Some(300), Some(temperature(1.5)), false);
    match handle_command(command, stored()).unwrap() {
        CommandOutcome::Updated(config) => {
            assert_eq!(config.model, "gpt-4o");
            assert_eq!(config.max_tokens, 300);
            assert_eq!(f32::from_bits(config.temperature.to_bits()), 1.5);
            assert_eq!(config.api_key, "sk-test");
        }
        other => panic!("{:?}", other),
    }
    match handle_command(config_command(None, Some(1), None, false), stored()).unwrap() {
        CommandOutcome::Updated(config) => {
            assert_eq!(config.model, "gpt-4");
            assert_eq!(config.max_tokens, 1);
            assert_eq!(f32::from_bits(config.temperature.to_bits()), 0.3);
        }
        other => panic!("{:?}", other),
    }
}

#[test]
fn config_update_with_a_bad_temperature_stores_nothing() {
    let command = config_command(Some("gpt-4o"), Some(300), Some(temperature(3.0)), false);
    match handle_command(command, stored()) {
        Err(SuperTerminalError::InvalidInput(detail)) => {
            assert_eq!(detail, "Temperature must be between 0.0 and 2.0")
        }
        other => panic!("{:?}", other),
    }
    let command = config_command(None, None, Some(temperature(-0.01)), false);
    assert!(matches!(handle_command(command, stored()), Err(SuperTerminalError::InvalidInput(_))));
}

#[test]
fn config_without_changes_stores_nothing() {
    let outcome = handle_command(config_command(None, None, None, false), stored()).unwrap();
    assert!(matches!(outcome, CommandOutcome::Unchanged));
}
