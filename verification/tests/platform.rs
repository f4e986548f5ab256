use superterminal::platform::{detect_shell, Platform};

fn detect(path: &str) -> String {
    detect_shell(Some(path.to_string()), Platform::Unix)
}

#[test]
fn shell_is_the_last_component_of_the_path() {
    assert_eq!(detect("/bin/bash"), "bash");
    assert_eq!(detect("/usr/local/bin/fish"), "fish");
    assert_eq!(detect("zsh"), "zsh");
    assert_eq!(detect("/zsh"), "zsh");
    assert_eq!(detect("C:\\Program Files\\Git\\bin\\bash.exe"), "C:\\Program Files\\Git\\bin\\bash.exe");
}

#[test]
fn shell_of_a_path_without_a_name_is_empty() {
    assert_eq!(detect(""), "");
    assert_eq!(detect("/"), "");
    assert_eq!(detect("/bin/"), "");
    assert_eq!(detect("//"), "");
}

#[test]
fn shell_path_goes_before_the_platform() {
    for platform in [
        Platform::MacOs,
        Platform::Unix,
        Platform::Windows { powershell: true },
        Platform::Windows { powershell: false },
    ] {
        assert_eq!(detect_shell(Some("/bin/dash".to_string()), platform), "dash");
    }
}

#[test]
fn shell_without_a_path_goes_by_the_platform() {
    assert_eq!(detect_shell(None, Platform::MacOs), "zsh");
    assert_eq!(detect_shell(None, Platform::Unix), "bash");
    assert_eq!(detect_shell(None, Platform::Windows { powershell: true }), "powershell");
    assert_eq!(detect_shell(None, Platform::Windows { powershell: false }), "cmd");
}

#[test]
fn shell_agrees_with_splitting_at_slashes() {
    let pieces = ["", "/", "a", "bin", "é", "//", "x/y", " "];
    for a in pieces {
        for b in pieces {
            for c in pieces {
                let path = format!("{}{}{}", a, b, c);
                let expected = path.split('/').last().unwrap().to_string();
                assert_eq!(detect(&path), expected);
                assert!(!detect(&path).contains('/'));
            }
        }
    }
}
