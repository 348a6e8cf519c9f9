use ffs::rules::git::{GitCheckout, GitNoCommand, GitPush};
use ffs::rules::grep::GrepRecursive;
use ffs::rules::mkdir::MkdirP;
use ffs::rules::sudo::Sudo;
use ffs::rules::Rule;
use ffs::shell::{arguments, replace_command};
use ffs::types::Command;

fn failed(script: &str, stderr: &str) -> Command {
    Command::new(script.to_string(), "".to_string(), stderr.to_string())
}

fn words(list: &[&str]) -> Vec<String> {
    list.iter().map(|word| word.to_string()).collect()
}

#[test]
fn mkdir_p_has_priority_90_and_no_side_effect() {
    let corrections =
        MkdirP.generate_corrections(&failed("mkdir foo/bar", "No such file or directory"));
    assert_eq!(corrections.len(), 1);
    assert_eq!(corrections[0].command, "mkdir -p foo/bar");
    assert_eq!(corrections[0].priority, 90);
    assert!(!corrections[0].side_effect);
    assert_eq!(MkdirP.name(), "mkdir_p");
}

#[test]
fn mkdir_p_keeps_every_argument_and_its_quoting() {
    let command = failed("mkdir -m 700 'a b/c' d", "mkdir: No such file or directory");
    assert!(MkdirP.matches(&command));
    assert_eq!(MkdirP.generate_corrections(&command)[0].command, "mkdir -p -m 700 'a b/c' d");
    assert_eq!(MkdirP::corrected_arguments(&words(&["mkdir"])), words(&["mkdir", "-p"]));
    assert_eq!(MkdirP::corrected_arguments(&Vec::new()), words(&["mkdir", "-p"]));
}

#[test]
fn mkdir_p_wants_the_command_mkdir_itself() {
    assert!(!MkdirP.matches(&failed("mkdirs foo/bar", "No such file or directory")));
    assert!(!MkdirP.matches(&failed("mkdir 'foo", "No such file or directory")));
    assert!(!MkdirP.matches(&failed("", "No such file or directory")));
    assert!(!MkdirP.matches(&failed("mkdir foo", "no such file or directory")));
    assert!(MkdirP.matches(&failed("'mkdir' foo", "No such file or directory")));
    assert!(MkdirP.generate_corrections(&failed("mkdir 'foo", "")).is_empty());
    assert!(MkdirP.generate_corrections(&failed("  ", "")).is_empty());
    assert!(MkdirP::corrections_from(None).is_empty());
    assert!(!MkdirP::recognises(&None, "No such file or directory"));
}

#[test]
fn grep_recursive_has_priority_90() {
    let command = failed("egrep -n 'a b' dir", "egrep: dir: Is a directory");
    let corrections = GrepRecursive.generate_corrections(&command);
    assert_eq!(corrections.len(), 1);
    assert_eq!(corrections[0].command, "egrep -r -n 'a b' dir");
    assert_eq!(corrections[0].priority, 90);
    assert!(!corrections[0].side_effect);
    assert_eq!(GrepRecursive.name(), "grep_recursive");
}

#[test]
fn grep_recursive_fails_closed() {
    assert!(!GrepRecursive.matches(&failed("grep 'foo dir", "is a directory")));
    assert!(GrepRecursive.generate_corrections(&failed("grep 'foo dir", "")).is_empty());
    assert!(GrepRecursive.generate_corrections(&failed("", "")).is_empty());
    assert!(GrepRecursive::corrections_from(None).is_empty());
    assert_eq!(GrepRecursive::corrections_from(Some(words(&["grep"])))[0].command, "grep -r");
}

#[test]
fn sudo_has_priority_100_and_keeps_the_script() {
    let corrections = Sudo.generate_corrections(&failed("  apt update", "permission denied"));
    assert_eq!(corrections.len(), 1);
    assert_eq!(corrections[0].command, "sudo   apt update");
    assert_eq!(corrections[0].priority, 100);
    assert!(!corrections[0].side_effect);
    assert_eq!(Sudo.name(), "sudo");
}

#[test]
fn sudo_reads_both_outputs_without_regard_to_case() {
    assert!(Sudo.matches(&failed("x", "EACCES: open failed")));
    assert!(Sudo.matches(&failed("x", "This command Requires Root Privileges")));
    assert!(Sudo.matches(&failed("x", "must be run as ROOT")));
    let on_stdout =
        Command::new("x".to_string(), "PERMISSION DENIED".to_string(), "".to_string());
    assert!(Sudo.matches(&on_stdout));
    let root_on_stdout =
        Command::new("x".to_string(), "must be run as root".to_string(), "".to_string());
    assert!(!Sudo.matches(&root_on_stdout));
    assert!(!Sudo.matches(&failed("x", "not found")));
    assert!(!Sudo.matches(&failed("  sudo x", "permission denied")));
    assert!(Sudo::recognises("x", "", "eacces"));
    assert!(!Sudo::recognises("x", "", "EACCES"));
}

#[test]
fn git_push_has_priority_100() {
    let command = failed(
        "git push",
        "fatal: The current branch master has no upstream branch.\n    git push --set-upstream origin master\n",
    );
    let corrections = GitPush.generate_corrections(&command);
    assert_eq!(corrections.len(), 1);
    assert_eq!(corrections[0].command, "git push --set-upstream origin master");
    assert_eq!(corrections[0].priority, 100);
    assert!(!corrections[0].side_effect);
    assert_eq!(GitPush.name(), "git_push");
}

#[test]
fn git_push_needs_the_suggested_line() {
    assert!(!GitPush.matches(&failed("git push", "has no upstream branch")));
    assert!(!GitPush.matches(&failed("git pull", "has no upstream branch git push --set-upstream")));
    let cut = failed("git push", "has no upstream branch: git push --set-upstream origin");
    assert!(GitPush.matches(&cut));
    assert!(GitPush.generate_corrections(&cut).is_empty());
    assert!(GitPush::corrections_from(None).is_empty());
}

#[test]
fn git_checkout_marks_the_side_effect() {
    let command = failed("git checkout feature", "did not match any file(s) known to git");
    let corrections = GitCheckout.generate_corrections(&command);
    assert_eq!(corrections.len(), 1);
    assert!(corrections[0].side_effect);
    assert_eq!(corrections[0].priority, 80);
    assert_eq!(GitCheckout.name(), "git_checkout");
}

#[test]
fn git_checkout_puts_the_flag_behind_the_word_only() {
    let corrections = GitCheckout::corrections_for("git checkout checkout-fix");
    assert_eq!(corrections[0].command, "git checkout -b checkout-fix");
    assert!(GitCheckout::corrections_for("git checkout -b x").is_empty());
    assert!(GitCheckout::corrections_for("git switch x").is_empty());
    assert!(!GitCheckout.matches(&failed("hg checkout x", "did not match any file(s) known to git")));
    assert!(!GitCheckout.matches(&failed("git checkout x", "unknown revision")));
}

#[test]
fn git_no_command_has_priority_100() {
    let command = failed(
        "git brnch -v",
        "git: 'brnch' is not a git command. See 'git --help'.\n\nDid you mean this?\n\tbranch\n",
    );
    assert!(GitNoCommand.matches(&command));
    let corrections = GitNoCommand.generate_corrections(&command);
    assert_eq!(corrections.len(), 1);
    assert_eq!(corrections[0].command, "git branch -v");
    assert_eq!(corrections[0].priority, 100);
    assert!(!corrections[0].side_effect);
    assert_eq!(GitNoCommand.name(), "git_no_command");
}

#[test]
fn git_no_command_needs_a_subcommand_and_a_suggestion() {
    assert!(GitNoCommand::corrections_from("git", Some("branch".to_string())).is_empty());
    assert!(GitNoCommand::corrections_from("git brnch", None).is_empty());
    let made = GitNoCommand::corrections_from("git st st", Some("  status ".to_string()));
    assert_eq!(made[0].command, "git status st");
    assert!(!GitNoCommand.matches(&failed("git brnch", "is not a git command")));
    let no_line = failed("git brnch", "is not a git command. Did you mean this?");
    assert!(GitNoCommand.matches(&no_line));
    assert!(GitNoCommand.generate_corrections(&no_line).is_empty());
}

#[test]
fn arguments_are_split_as_a_shell_does() {
    assert_eq!(arguments("a 'b c' \"d\\\"e\""), Some(words(&["a", "b c", "d\"e"])));
    assert_eq!(arguments(""), Some(Vec::new()));
    assert_eq!(arguments("a 'b"), None);
    assert_eq!(arguments("a \"b"), None);
}

#[test]
fn the_command_of_an_argument_list_is_replaced() {
    assert_eq!(replace_command(&words(&["a", "b", "c"]), "x"), words(&["x", "b", "c"]));
    assert_eq!(replace_command(&words(&["a"]), "x"), words(&["x"]));
    assert!(replace_command(&Vec::new(), "x").is_empty());
}
