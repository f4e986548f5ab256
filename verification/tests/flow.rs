use superterminal::ai::ApiReply;
use superterminal::config::{Config, Temperature};
use superterminal::error::SuperTerminalError;
use superterminal::query::{
    handle_query, AfterConfig, AfterConfirmation, AfterReply, ClipboardOutcome, Message,
    PendingConfirmation, PendingCopy, PendingReply,
};

fn stored() -> Config {
    Config {
        api_key: "sk-test".to_string(),
        model: "gpt-4".to_string(),
        max_tokens: 150,
        temperature: Temperature::from_bits(0.3f32.to_bits()),
    }
}

fn answer(text: &str) -> ApiReply {
    ApiReply::Completed(vec![Some(text.to_string())])
}

fn start(query: &str, auto_yes: bool) -> PendingReply {
    let step = handle_query(query.to_string(), auto_yes, false, "bash".to_string());
    assert!(step.messages.is_empty());
    let step = step.next.config_loaded(Ok(stored()));
    match step.next {
        AfterConfig::Send(_, pending) => pending,
        other => panic!("{:?}", other),
    }
}

fn ask(query: &str, reply: &str) -> PendingConfirmation {
    match start(query, false).replied(answer(reply)).next {
        AfterReply::Confirm(pending) => pending,
        other => panic!("{:?}", other),
    }
}

fn copy(reply: &str) -> PendingCopy {
    match start("show disk usage", true).replied(answer(reply)).next {
        AfterReply::Copy(pending) => pending,
        other => panic!("{:?}", other),
    }
}

#[test]
fn yes_flag_copies_the_command_without_a_prompt() {
    let step = handle_query("show disk usage".to_string(), true, false, "bash".to_string());
    assert!(step.messages.is_empty());

    let step = step.next.config_loaded(Ok(stored()));
    assert!(matches!(step.messages.as_slice(), [Message::Translating]));
    let (request, pending) = match step.next {
        AfterConfig::Send(request, pending) => (request, pending),
        other => panic!("{:?}", other),
    };
    assert_eq!(
        request.user_message,
        "Convert this natural language request to a shell command: show disk usage"
    );

    let step = pending.replied(answer("```sh\ndf -h\n```"));
    match step.messages.as_slice() {
        [Message::GeneratedCommand(command)] => assert_eq!(command, "df -h"),
        other => panic!("{:?}", other),
    }
    let pending = match step.next {
        AfterReply::Copy(pending) => pending,
        other => panic!("{:?}", other),
    };
    assert_eq!(pending.text(), "df -h");

    let step = pending.copied(ClipboardOutcome::Written);
    match step.messages.as_slice() {
        [Message::CopiedToClipboard(command)] => assert_eq!(command, "df -h"),
        other => panic!("{:?}", other),
    }
    assert!(step.next.is_ok());
}

#[test]
fn verbose_flow_names_shell_and_query() {
    let step = handle_query("list files".to_string(), false, true, "zsh".to_string());
    match step.messages.as_slice() {
        [Message::DetectedShell(shell), Message::ProcessingQuery(query)] => {
            assert_eq!(shell, "zsh");
            assert_eq!(query, "list files");
        }
        other => panic!("{:?}", other),
    }
}

#[test]
fn flow_ends_when_the_settings_cannot_be_had() {
    let step = handle_query("list files".to_string(), false, false, "bash".to_string());
    let step = step.next.config_loaded(Err(SuperTerminalError::MissingApiKey));
    assert!(step.messages.is_empty());
    assert!(matches!(step.next, AfterConfig::Finish(Err(SuperTerminalError::MissingApiKey))));

    let step = handle_query("list files".to_string(), true, true, "bash".to_string());
    let failure = SuperTerminalError::IoError("disk full".to_string());
    let step = step.next.config_loaded(Err(failure));
    assert!(step.messages.is_empty());
    match step.next {
        AfterConfig::Finish(Err(SuperTerminalError::IoError(detail))) => {
            assert_eq!(detail, "disk full")
        }
        other => panic!("{:?}", other),
    }
}

#[test]
fn pending_reply_keeps_the_settings_for_the_driver() {
    let pending = start("list files", false);
    assert_eq!(pending.config().api_key, "sk-test");
    assert_eq!(pending.config().model, "gpt-4");
}

#[test]
fn flow_refuses_a_blank_query_after_announcing_the_translation() {
    for query in ["", "   ", "\t\n"] {
        let step = handle_query(query.to_string(), true, false, "bash".to_string());
        let step = step.next.config_loaded(Ok(stored()));
        assert!(matches!(step.messages.as_slice(), [Message::Translating]));
        match step.next {
            AfterConfig::Finish(Err(SuperTerminalError::InvalidInput(detail))) => {
                assert_eq!(detail, "Input cannot be empty")
            }
            other => panic!("{:?}", other),
        }
    }
}

#[test]
fn flow_uses_the_loaded_settings_for_its_request() {
    let mut config = stored();
    config.model = "gpt-4o".to_string();
    config.max_tokens = 42;
    config.temperature = Temperature::from_bits(1.25f32.to_bits());
    let step = handle_query("list files".to_string(), false, false, "bash".to_string());
    match step.next.config_loaded(Ok(config)).next {
        AfterConfig::Send(request, _) => {
            assert_eq!(request.model, "gpt-4o");
            assert_eq!(request.max_tokens, 42);
            assert_eq!(f32::from_bits(request.temperature.to_bits()), 1.25);
        }
        other => panic!("{:?}", other),
    }
}

#[test]
fn flow_ends_with_the_failure_of_the_request() {
    let step = start("list files", true).replied(ApiReply::Failed("no route to host".to_string()));
    assert!(step.messages.is_empty());
    match step.next {
        AfterReply::Finish(Err(SuperTerminalError::OpenAIError(detail))) => {
            assert_eq!(detail, "no route to host")
        }
        other => panic!("{:?}", other),
    }
    let step = start("list files", false).replied(ApiReply::Completed(Vec::new()));
    match step.next {
        AfterReply::Finish(Err(SuperTerminalError::ConfigError(detail))) => {
            assert_eq!(detail, "No response from AI")
        }
        other => panic!("{:?}", other),
    }
}

#[test]
fn flow_asks_before_copying_without_the_yes_flag() {
    let step = start("list files", false).replied(answer("ls -la\nThis lists all files"));
    match step.messages.as_slice() {
        [Message::GeneratedCommand(command)] => assert_eq!(command, "ls -la"),
        other => panic!("{:?}", other),
    }
    assert!(matches!(step.next, AfterReply::Confirm(_)));
}

#[test]
fn confirmed_command_goes_to_the_clipboard() {
    let step = ask("list files", "ls -la").confirmed(Some(true));
    assert!(step.messages.is_empty());
    match step.next {
        AfterConfirmation::Copy(pending) => assert_eq!(pending.text(), "ls -la"),
        other => panic!("{:?}", other),
    }
}

#[test]
fn declined_command_is_not_copied() {
    let step = ask("list files", "ls -la").confirmed(Some(false));
    assert!(matches!(step.messages.as_slice(), [Message::NotCopied]));
    assert!(matches!(step.next, AfterConfirmation::Finish(Ok(()))));
}

#[test]
fn aborted_prompt_cancels_the_flow() {
    let step = ask("list files", "ls -la").confirmed(None);
    assert!(step.messages.is_empty());
    assert!(matches!(
        step.next,
        AfterConfirmation::Finish(Err(SuperTerminalError::UserCancelled))
    ));
}

#[test]
fn failing_clipboard_write_is_a_warning() {
    let step = copy("df -h").copied(ClipboardOutcome::WriteFailed("selection lost".to_string()));
    match step.messages.as_slice() {
        [Message::CopyFailed { reason, command }] => {
            assert_eq!(reason, "selection lost");
            assert_eq!(command, "df -h");
        }
        other => panic!("{:?}", other),
    }
    assert!(step.next.is_ok());
}

#[test]
fn missing_clipboard_is_a_warning() {
    let step = copy("df -h").copied(ClipboardOutcome::Unavailable("no display".to_string()));
    match step.messages.as_slice() {
        [Message::ClipboardUnavailable { reason, command }] => {
            assert_eq!(reason, "no display");
            assert_eq!(command, "df -h");
        }
        other => panic!("{:?}", other),
    }
    assert!(step.next.is_ok());
}
