use ffs::rules::python::{PipUnknownCommand, PythonExecute};
use ffs::rules::Rule;
use ffs::types::Command;
use std::path::Path;
use tempfile::NamedTempFile;

/// The files among the candidates of `script` that exist.
fn probe(script: &str) -> Vec<String> {
    match PythonExecute::candidate(script) {
        Some(file) if Path::new(&file).exists() => vec![file],
        _ => Vec::new(),
    }
}

#[test]
fn test_python_execute() {
    let file = NamedTempFile::with_suffix(".py").unwrap();
    let path = file.path().to_str().unwrap();
    let script_name = path.strip_suffix(".py").unwrap();

    let rule = PythonExecute::new(probe(script_name));

    let command = Command::new(script_name.to_string(), "".to_string(), "".to_string());

    assert!(rule.matches(&command));
    let corrections = rule.generate_corrections(&command);
    assert_eq!(corrections.len(), 1);
    assert_eq!(corrections[0].command, format!("{}.py", script_name));
}

#[test]
fn test_pip_unknown_command() {
    let rule = PipUnknownCommand;
    let command = Command::new(
        "pip instatl numpy".to_string(),
        "".to_string(),
        "ERROR: unknown command \"instatl\", maybe you meant \"install\"".to_string(),
    );

    assert!(rule.matches(&command));
    let corrections = rule.generate_corrections(&command);
    assert_eq!(corrections.len(), 1);
    assert_eq!(corrections[0].command, "pip install numpy");
}

#[test]
fn pip_correction_has_priority_100() {
    let command = Command::new(
        "pip instatl numpy".to_string(),
        "".to_string(),
        "ERROR: unknown command \"instatl\", maybe you meant \"install\"".to_string(),
    );
    let corrections = PipUnknownCommand.generate_corrections(&command);
    assert_eq!(corrections[0].priority, 100);
    assert!(!corrections[0].side_effect);
    assert_eq!(PipUnknownCommand.name(), "pip_unknown_command");
}

#[test]
fn pip_replaces_the_word_only() {
    let command = Command::new(
        "pip instal instal-tools instal".to_string(),
        "".to_string(),
        "ERROR: unknown command \"instal\", maybe you meant \"install\"".to_string(),
    );
    let corrections = PipUnknownCommand.generate_corrections(&command);
    assert_eq!(corrections[0].command, "pip install instal-tools instal");
}

#[test]
fn pip_needs_both_captures() {
    let command = Command::new(
        "pip instatl numpy".to_string(),
        "".to_string(),
        "ERROR: no such option, maybe you meant \"install\"".to_string(),
    );
    assert!(PipUnknownCommand.matches(&command));
    assert!(PipUnknownCommand.generate_corrections(&command).is_empty());
    assert!(PipUnknownCommand::corrections_from("pip x", None, Some("x".to_string())).is_empty());
    assert!(PipUnknownCommand::corrections_from("pip x", Some("y".to_string()), None).is_empty());
    let both =
        PipUnknownCommand::corrections_from("pip x", Some("y".to_string()), Some("x".to_string()));
    assert_eq!(both[0].command, "pip y");
}

#[test]
fn pip_does_not_match_other_tools() {
    let command = Command::new(
        "npm instatl".to_string(),
        "".to_string(),
        "unknown command \"instatl\", maybe you meant \"install\"".to_string(),
    );
    assert!(!PipUnknownCommand.matches(&command));
}

#[test]
fn python_execute_looks_for_the_trimmed_script() {
    assert_eq!(PythonExecute::candidate("  run  "), Some("run.py".to_string()));
    assert_eq!(PythonExecute::candidate("run.py"), None);
    assert_eq!(PythonExecute::candidate("run.py \n"), None);
}

#[test]
fn python_execute_matches_known_files_only() {
    let rule = PythonExecute::new(vec!["tool.py".to_string()]);
    let known = Command::new(" tool ".to_string(), "".to_string(), "".to_string());
    assert!(rule.matches(&known));
    let corrections = rule.generate_corrections(&known);
    assert_eq!(corrections.len(), 1);
    assert_eq!(corrections[0].command, " tool .py");
    assert_eq!(corrections[0].priority, 100);
    let unknown = Command::new("other".to_string(), "".to_string(), "".to_string());
    assert!(!rule.matches(&unknown));
    let already = Command::new("tool.py".to_string(), "".to_string(), "".to_string());
    assert!(!PythonExecute::new(vec!["tool.py.py".to_string()]).matches(&already));
    assert_eq!(rule.name(), "python_execute");
}
