use superterminal::ai::AIService;
use superterminal::config::Config;

fn service() -> AIService {
    AIService::new(Config::default()).unwrap()
}

/// The same cleanup written with the string methods of the standard
/// library, to hold the library against.
fn cleanup_with_std(content: &str) -> String {
    let mut content = content.trim();
    if let Some(stripped) = content.strip_prefix("```bash") {
        content = stripped;
    } else if let Some(stripped) = content.strip_prefix("```sh") {
        content = stripped;
    } else if let Some(stripped) = content.strip_prefix("```") {
        content = stripped;
    }
    content = content.trim();
    if let Some(stripped) = content.strip_suffix("```") {
        content = stripped.trim();
    }
    content
        .lines()
        .map(|line| line.trim())
        .find(|line| !line.is_empty())
        .unwrap_or("")
        .to_string()
}

#[test]
fn test_extract_command_plain() {
    let config = Config::default();
    let service = AIService::new(config).unwrap();
    let result = service.extract_command("ls -la");
    assert_eq!(result, "ls -la");
}

#[test]
fn test_extract_command_with_markdown() {
    let config = Config::default();
    let service = AIService::new(config).unwrap();
    let result = service.extract_command("```bash\nls -la\n```");
    assert_eq!(result, "ls -la");
}

#[test]
fn test_extract_command_with_explanation() {
    let config = Config::default();
    let service = AIService::new(config).unwrap();
    let result = service.extract_command("ls -la\nThis lists all files");
    assert_eq!(result, "ls -la");
}

#[test]
fn extract_command_strips_each_opening_fence() {
    let service = service();
    assert_eq!(service.extract_command("```sh\ndf -h\n```"), "df -h");
    assert_eq!(service.extract_command("```\ndf -h\n```"), "df -h");
    assert_eq!(service.extract_command("```bash\ndf -h\n```"), "df -h");
    assert_eq!(service.extract_command("```bash df -h```"), "df -h");
}

#[test]
fn extract_command_strips_one_fence_only() {
    let service = service();
    // The longest marker goes first: nothing of `bash` is left behind.
    assert_eq!(service.extract_command("```bash"), "");
    assert_eq!(service.extract_command("```shell\nls\n```"), "ell");
    // A second marker behind the first stays.
    assert_eq!(service.extract_command("``` ```ls"), "```ls");
    assert_eq!(service.extract_command("``````"), "");
    assert_eq!(service.extract_command("ls ``` -la"), "ls ``` -la");
}

#[test]
fn extract_command_of_blank_answer_is_empty() {
    let service = service();
    assert_eq!(service.extract_command(""), "");
    assert_eq!(service.extract_command("   "), "");
    assert_eq!(service.extract_command(" \n\t\r\n \u{3000}\u{a0}"), "");
    assert_eq!(service.extract_command("```\n\n```"), "");
    assert_eq!(service.extract_command("```bash\n   \n```"), "");
}

#[test]
fn extract_command_skips_blank_lines() {
    let service = service();
    assert_eq!(service.extract_command("```\n\n  \n  ls -la  \nmore\n```"), "ls -la");
    assert_eq!(service.extract_command("\n\n  echo hi\r\nsecond"), "echo hi");
    assert_eq!(service.extract_command("```sh\r\ndf -h\r\n```\r\n"), "df -h");
}

#[test]
fn extract_command_trims_unicode_whitespace() {
    let service = service();
    assert_eq!(service.extract_command("\u{2003}ls\u{2028}"), "ls");
    assert_eq!(service.extract_command("\u{85}pwd\u{1680}\u{205f}"), "pwd");
    // A zero-width space is not white space.
    assert_eq!(service.extract_command("\u{200b}ls"), "\u{200b}ls");
    // A carriage return alone ends no line.
    assert_eq!(service.extract_command("a\rb\nc"), "a\rb");
}

#[test]
fn extract_command_keeps_a_clean_line() {
    let service = service();
    for command in ["ls -la", "find . -name \"*.py\"", "echo `date`", "x", "grep -r 'a b' ."] {
        assert_eq!(service.extract_command(command), command);
    }
}

#[test]
fn extract_command_result_is_one_trimmed_line() {
    let service = service();
    let answers = [
        "```bash\nls -la\n```",
        "  ls  \n  pwd  ",
        "\n\n\n",
        "```\n```",
        "a\n```",
        "```sh ls\n```\n```",
        "\tcat file\t\n",
    ];
    for answer in answers {
        let command = service.extract_command(answer);
        assert!(!command.contains('\n'));
        assert_eq!(command.trim(), command);
    }
}

#[test]
fn extract_command_agrees_with_the_standard_library() {
    let service = service();
    let pieces = [
        "", " ", "\n", "\r\n", "\t", "```", "```bash", "```sh", "`", "``", "ls -la", "df", "bash",
        "sh", "\u{a0}", "\u{2009}", "\u{200b}", "é", "\r", "x```", "```y",
    ];
    let mut checked = 0;
    for a in pieces {
        for b in pieces {
            for c in pieces {
                let answer = format!("{}{}{}", a, b, c);
                assert_eq!(service.extract_command(&answer), cleanup_with_std(&answer));
                checked += 1;
            }
        }
    }
    assert_eq!(checked, pieces.len() * pieces.len() * pieces.len());
}

#[test]
fn extract_command_twice_is_once_without_a_fence_left() {
    let service = service();
    for answer in ["```bash\nls -la\n```", "  pwd \nnext", "", "```sh df -h```", "echo `date`"] {
        let once = service.extract_command(answer);
        assert_eq!(service.extract_command(&once), once);
    }
    // A marker that is left at the start goes in a second pass.
    let once = service.extract_command("``` ```ls");
    assert_eq!(once, "```ls");
    assert_eq!(service.extract_command(&once), "ls");
}
