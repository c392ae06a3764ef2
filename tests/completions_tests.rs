use std::collections::HashSet;

use bel7_cli::{CompletionShell, ParseShellError};

#[test]
fn test_all_shells_parse_from_str() {
    let cases = [
        ("bash", CompletionShell::Bash),
        ("zsh", CompletionShell::Zsh),
        ("fish", CompletionShell::Fish),
        ("elvish", CompletionShell::Elvish),
        ("nushell", CompletionShell::Nushell),
        ("nu", CompletionShell::Nushell),
        ("powershell", CompletionShell::PowerShell),
        ("pwsh", CompletionShell::PowerShell),
    ];

    for (input, expected) in cases {
        let parsed: CompletionShell = input.parse().unwrap();
        assert_eq!(parsed, expected);
    }
}

#[test]
fn test_parse_case_insensitive() {
    let cases = ["BASH", "Bash", "bAsH", "ZSH", "Zsh"];
    for input in cases {
        let result: Result<CompletionShell, _> = input.parse();
        assert!(result.is_ok(), "failed to parse: {}", input);
    }
}

#[test]
fn test_parse_unknown_shell_fails() {
    let result: Result<CompletionShell, ParseShellError> = "unknown".parse();
    assert!(result.is_err());
    let err = result.unwrap_err();
    assert!(err.to_string().contains("unknown"));
}

#[test]
fn test_display() {
    assert_eq!(CompletionShell::Bash.to_string(), "bash");
    assert_eq!(CompletionShell::Zsh.to_string(), "zsh");
    assert_eq!(CompletionShell::Fish.to_string(), "fish");
    assert_eq!(CompletionShell::Elvish.to_string(), "elvish");
    assert_eq!(CompletionShell::Nushell.to_string(), "nushell");
    assert_eq!(CompletionShell::PowerShell.to_string(), "powershell");
}

#[test]
fn test_all_returns_all_variants() {
    let all = CompletionShell::all();
    assert_eq!(all.len(), 6);
    assert!(all.contains(&CompletionShell::Bash));
    assert!(all.contains(&CompletionShell::Zsh));
    assert!(all.contains(&CompletionShell::Fish));
    assert!(all.contains(&CompletionShell::Elvish));
    assert!(all.contains(&CompletionShell::Nushell));
    assert!(all.contains(&CompletionShell::PowerShell));
}

#[test]
fn test_clone_and_copy() {
    let shell = CompletionShell::Bash;
    let cloned = shell.clone();
    let copied = shell;
    assert_eq!(shell, cloned);
    assert_eq!(shell, copied);
}

#[test]
fn test_debug() {
    let shell = CompletionShell::Fish;
    let debug = format!("{:?}", shell);
    assert!(debug.contains("Fish"));
}

#[test]
fn test_hash() {
    let mut set = HashSet::new();
    set.insert(CompletionShell::Bash);
    set.insert(CompletionShell::Zsh);
    set.insert(CompletionShell::Bash);
    assert_eq!(set.len(), 2);
}

#[test]
fn test_default_is_bash() {
    assert_eq!(CompletionShell::default(), CompletionShell::Bash);
}

#[test]
fn test_parse_shell_error_clone() {
    let result: Result<CompletionShell, ParseShellError> = "invalid".parse();
    let err = result.unwrap_err();
    let cloned = err.clone();
    assert_eq!(err, cloned);
}

#[test]
fn test_parse_shell_error_debug() {
    let result: Result<CompletionShell, ParseShellError> = "unknown".parse();
    let err = result.unwrap_err();
    let debug = format!("{:?}", err);
    assert!(debug.contains("ParseShellError"));
}

#[test]
fn parse_then_name_round_trips() {
    for name in ["bash", "zsh", "fish", "elvish", "nushell", "nu", "powershell", "pwsh"] {
        let parsed = CompletionShell::parse(name).unwrap();
        let again = CompletionShell::parse(parsed.name()).unwrap();
        assert_eq!(parsed, again);
    }
}

#[test]
fn unknown_shell_error_names_the_input() {
    let err = CompletionShell::parse("Tcsh").unwrap_err();
    assert_eq!(err.to_string(), "unknown shell: Tcsh");
}

#[test]
fn parse_lowercases_beyond_ascii() {
    assert_eq!(CompletionShell::parse("PWSH"), Ok(CompletionShell::PowerShell));
    assert_eq!(CompletionShell::parse("NuShell"), Ok(CompletionShell::Nushell));
    assert!(CompletionShell::parse("bash ").is_err());
}

#[test]
fn from_name_compares_exactly() {
    assert_eq!(CompletionShell::from_name(&"nu".to_string()), Some(CompletionShell::Nushell));
    assert_eq!(CompletionShell::from_name(&"Bash".to_string()), None);
    assert_eq!(CompletionShell::from_name(&"".to_string()), None);
}

#[test]
fn detection_prefers_nushell_then_shell_file_name_then_bash() {
    let zsh = "zsh".to_string();
    let pwsh = "pwsh".to_string();
    let sh = "sh".to_string();
    assert_eq!(CompletionShell::detect_from(true, Some(&zsh)), CompletionShell::Nushell);
    assert_eq!(CompletionShell::detect_from(false, Some(&zsh)), CompletionShell::Zsh);
    assert_eq!(CompletionShell::detect_from(false, Some(&pwsh)), CompletionShell::PowerShell);
    assert_eq!(CompletionShell::detect_from(false, Some(&sh)), CompletionShell::Bash);
    assert_eq!(CompletionShell::detect_from(false, None), CompletionShell::Bash);
}
