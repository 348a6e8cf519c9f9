use ffs::rules::mkdir::MkdirP;
use ffs::rules::Rule;
use ffs::types::Command;

#[test]
fn test_mkdir_p() {
    let rule = MkdirP;
    let command = Command::new(
        "mkdir foo/bar".to_string(),
        "".to_string(),
        "mkdir: cannot create directory \u{2018}foo/bar\u{2019}: No such file or directory".to_string(),
    );

    assert!(rule.matches(&command));
    let corrections = rule.generate_corrections(&command);
    assert_eq!(corrections.len(), 1);
    assert_eq!(corrections[0].command, "mkdir -p foo/bar");
}

#[test]
fn test_mkdir_p_no_match() {
    let rule = MkdirP;
    let command = Command::new("mkdir foo".to_string(), "".to_string(), "".to_string());

    assert!(!rule.matches(&command));
}
