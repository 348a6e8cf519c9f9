use ffs::ui::{note, select_correction};
use ffs::types::Correction;
use ffs::utils::get_last_command;

#[test]
fn the_last_line_of_the_history_is_the_command() {
    assert_eq!(get_last_command("ls\ngit brnch\n"), Some("git brnch".to_string()));
    assert_eq!(get_last_command("   cd foo  "), Some("cd foo".to_string()));
}

#[test]
fn calls_of_the_program_and_empty_lines_are_passed_over() {
    assert_eq!(get_last_command("git brnch\nffs\n"), Some("git brnch".to_string()));
    assert_eq!(get_last_command("  mkdir a/b \n  fuck\n\n   \n ffs --x\n"), Some("mkdir a/b".to_string()));
    assert_eq!(get_last_command("ls\nffsx\n"), Some("ls".to_string()));
    assert_eq!(get_last_command("ls\n ff s\n"), Some("ff s".to_string()));
}

#[test]
fn a_history_without_a_command_gives_none() {
    assert_eq!(get_last_command(""), None);
    assert_eq!(get_last_command(" \n \n"), None);
    assert_eq!(get_last_command("ffs\nfuck\n"), None);
}

#[test]
fn a_selection_stands_for_the_correction_at_its_position() {
    let corrections = vec![
        Correction::new("first".to_string(), false, 2),
        Correction::new("second".to_string(), true, 1),
    ];
    assert_eq!(select_correction(&corrections, 0).map(|c| c.command.as_str()), Some("first"));
    assert_eq!(select_correction(&corrections, 1).map(|c| c.command.as_str()), Some("second"));
    assert!(select_correction(&corrections, 2).is_none());
    assert!(select_correction(&corrections, usize::MAX).is_none());
    assert!(select_correction(&Vec::new(), 0).is_none());
}

#[test]
fn a_side_effect_is_shown_behind_the_command() {
    let plain = Correction::new("ls".to_string(), false, 1);
    let risky = Correction::new("git checkout -b x".to_string(), true, 1);
    assert_eq!(note(&plain), "");
    assert_eq!(note(&risky), "(side effect)");
}
