use ffs::config::Config;
use ffs::engine::Engine;
use ffs::ranking::rank;
use ffs::rules::git::GitCheckout;
use ffs::rules::sudo::Sudo;
use ffs::rules::Rule;
use ffs::types::{Command, Correction};
use std::sync::atomic::{AtomicUsize, Ordering};
use std::sync::Arc;

/// A rule that counts how often it is asked, and proposes what it is given.
struct Probe {
    name: String,
    answer: bool,
    priorities: Vec<usize>,
    asked: AtomicUsize,
    generated: AtomicUsize,
}

impl Probe {
    fn new(name: &str, answer: bool, priorities: &[usize]) -> Arc<Self> {
        Arc::new(Self {
            name: name.to_string(),
            answer,
            priorities: priorities.to_vec(),
            asked: AtomicUsize::new(0),
            generated: AtomicUsize::new(0),
        })
    }
}

impl Rule for Probe {
    fn name(&self) -> &str {
        &self.name
    }

    fn matches(&self, _command: &Command) -> bool {
        self.asked.fetch_add(1, Ordering::SeqCst);
        self.answer
    }

    fn generate_corrections(&self, _command: &Command) -> Vec<Correction> {
        self.generated.fetch_add(1, Ordering::SeqCst);
        self.priorities
            .iter()
            .enumerate()
            .map(|(i, priority)| Correction::new(format!("{}{}", self.name, i), false, *priority))
            .collect()
    }
}

fn any_command() -> Command {
    Command::new("foo".to_string(), "".to_string(), "".to_string())
}

fn lines(corrections: &[Correction]) -> Vec<&str> {
    corrections.iter().map(|correction| correction.command.as_str()).collect()
}

#[test]
fn corrections_come_by_descending_priority() {
    let mut engine = Engine::new(Config::default());
    engine.register_rule(Probe::new("a", true, &[3, 9, 1]));
    engine.register_rule(Probe::new("b", true, &[9, 0, 7]));
    engine.register_rule(Probe::new("c", true, &[usize::MAX]));
    let corrections = engine.get_corrections(&any_command());
    let priorities: Vec<usize> = corrections.iter().map(|c| c.priority).collect();
    assert_eq!(priorities, vec![usize::MAX, 9, 9, 7, 3, 1, 0]);
}

#[test]
fn equal_priorities_keep_the_order_of_rules_and_of_emission() {
    let mut engine = Engine::new(Config::default());
    engine.register_rule(Probe::new("a", true, &[5, 8, 5]));
    engine.register_rule(Probe::new("b", true, &[5, 8]));
    let corrections = engine.get_corrections(&any_command());
    assert_eq!(lines(&corrections), vec!["a1", "b1", "a0", "a2", "b0"]);
}

#[test]
fn rank_is_a_stable_sort_by_descending_priority() {
    let proposed: Vec<Correction> = [2usize, 7, 2, 0, 7, 7, 1]
        .iter()
        .enumerate()
        .map(|(i, priority)| Correction::new(format!("c{}", i), i % 2 == 0, *priority))
        .collect();
    let ordered = rank(proposed);
    assert_eq!(lines(&ordered), vec!["c1", "c4", "c5", "c0", "c2", "c6", "c3"]);
    assert!(ordered[3].side_effect);
    assert!(!ordered[0].side_effect);
    assert!(rank(Vec::new()).is_empty());
}

#[test]
fn a_rule_that_does_not_match_is_not_asked_for_corrections() {
    let silent = Probe::new("silent", false, &[100]);
    let loud = Probe::new("loud", true, &[1]);
    let mut engine = Engine::new(Config::default());
    engine.register_rule(silent.clone());
    engine.register_rule(loud.clone());
    let corrections = engine.get_corrections(&any_command());
    assert_eq!(lines(&corrections), vec!["loud0"]);
    assert_eq!(silent.asked.load(Ordering::SeqCst), 1);
    assert_eq!(silent.generated.load(Ordering::SeqCst), 0);
    assert_eq!(loud.asked.load(Ordering::SeqCst), 1);
    assert_eq!(loud.generated.load(Ordering::SeqCst), 1);
}

#[test]
fn no_rule_and_no_match_give_no_corrections() {
    let empty: Engine<Sudo> = Engine::new(Config::default());
    assert!(empty.get_corrections(&any_command()).is_empty());
    let mut engine = Engine::new(Config::default());
    engine.register_rule(Sudo);
    assert!(engine.get_corrections(&any_command()).is_empty());
}

#[test]
fn exclusion_wins_over_inclusion() {
    let mut config = Config::default();
    config.rules = Some(vec!["both".to_string(), "listed".to_string()]);
    config.exclude_rules = Some(vec!["both".to_string()]);
    assert!(!config.allows("both"));
    assert!(config.allows("listed"));
    assert!(!config.allows("other"));

    let mut engine = Engine::new(config);
    engine.register_rule(Probe::new("both", true, &[1]));
    engine.register_rule(Probe::new("other", true, &[1]));
    engine.register_rule(Probe::new("listed", true, &[1]));
    assert_eq!(engine.rules().len(), 1);
    assert_eq!(engine.rules()[0].name(), "listed");
}

#[test]
fn lists_of_the_configuration_decide_alone() {
    let open = Config::default();
    assert!(open.allows("anything"));
    assert!(open.allows(""));
    let mut none = Config::default();
    none.rules = Some(Vec::new());
    assert!(!none.allows("anything"));
    let mut excluded = Config::default();
    excluded.exclude_rules = Some(vec!["sudo".to_string()]);
    assert!(!excluded.allows("sudo"));
    assert!(excluded.allows("sud"));
    assert!(excluded.allows("sudo "));
}

#[test]
fn registering_a_rule_twice_gives_the_same_decision_twice() {
    let mut config = Config::default();
    config.rules = Some(vec!["kept".to_string()]);
    let mut engine = Engine::new(config);
    let kept = Probe::new("kept", true, &[1]);
    let dropped = Probe::new("dropped", true, &[1]);
    engine.register_rule(kept.clone());
    engine.register_rule(dropped.clone());
    assert_eq!(engine.rules().len(), 1);
    engine.register_rule(kept.clone());
    engine.register_rule(dropped.clone());
    assert_eq!(engine.rules().len(), 2);
    assert_eq!(engine.rules()[0].name(), "kept");
    assert_eq!(engine.rules()[1].name(), "kept");
    assert_eq!(lines(&engine.get_corrections(&any_command())), vec!["kept0", "kept0"]);
}

#[test]
fn the_engine_keeps_its_configuration_and_the_order_of_registration() {
    let mut config = Config::default();
    config.history_limit = Some(7);
    let mut engine = Engine::new(config);
    engine.register_rule(Probe::new("z", true, &[]));
    engine.register_rule(Probe::new("a", true, &[]));
    engine.register_rule(Probe::new("m", false, &[]));
    let names: Vec<&str> = engine.rules().iter().map(|rule| rule.name()).collect();
    assert_eq!(names, vec!["z", "a", "m"]);
    assert_eq!(engine.config().history_limit, Some(7));
    assert!(engine.get_corrections(&any_command()).is_empty());
}

#[test]
fn built_in_rules_of_one_kind_work_without_sharing() {
    let mut engine = Engine::new(Config::default());
    engine.register_rule(GitCheckout);
    let command = Command::new(
        "git checkout feature".to_string(),
        "".to_string(),
        "error: pathspec 'feature' did not match any file(s) known to git".to_string(),
    );
    let corrections = engine.get_corrections(&command);
    assert_eq!(corrections.len(), 1);
    assert_eq!(corrections[0].command, "git checkout -b feature");
    assert!(corrections[0].side_effect);
    assert_eq!(corrections[0].priority, 80);
}

#[test]
fn a_new_command_and_a_new_correction_hold_what_they_were_given() {
    let command = Command::new("s".to_string(), "o".to_string(), "e".to_string());
    assert_eq!(command.script, "s");
    assert_eq!(command.stdout, "o");
    assert_eq!(command.stderr, "e");
    let correction = Correction::new("fix".to_string(), true, 3);
    assert_eq!(correction.command, "fix");
    assert!(correction.side_effect);
    assert_eq!(correction.priority, 3);
    assert_eq!(correction.confirmation_text, None);
    let copy = correction.clone();
    assert_eq!(copy.command, "fix");
}

#[test]
fn the_default_configuration_has_no_lists() {
    let config = Config::default();
    assert!(config.rules.is_none());
    assert!(config.exclude_rules.is_none());
    assert!(config.priority.is_none());
    assert_eq!(config.history_limit, Some(100));
}
