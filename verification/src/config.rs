//! The settings that a caller hands to the engine.

use crate::text;
use std::collections::HashMap;
use vstd::prelude::*;

verus! {

/// The settings of one run.
#[derive(Debug, Clone)]
pub struct Config {
    /// Where present, the only rules that may be active.
    pub rules: Option<Vec<String>>,
    /// Where present, rules that are never active.
    pub exclude_rules: Option<Vec<String>>,
    /// How many seconds to wait for the failed command when it is run again.
    pub wait_command: Option<u64>,
    /// Whether a correction is confirmed before it runs.
    pub require_confirmation: Option<bool>,
    /// Whether output is printed without colors.
    pub no_colors: Option<bool>,
    /// Priorities by rule name, kept for the rules to consult.
    pub priority: Option<HashMap<String, usize>>,
    /// How many entries of the shell history are considered.
    pub history_limit: Option<usize>,
}

impl Default for Config {
    fn default() -> (config: Self)
        ensures
            config.rules is None,
            config.exclude_rules is None,
            config.wait_command == Some(3u64),
            config.require_confirmation == Some(true),
            config.no_colors == Some(false),
            config.priority is None,
            config.history_limit == Some(100usize),
    {
        Self {
            rules: None,
            exclude_rules: None,
            wait_command: Some(3),
            require_confirmation: Some(true),
            no_colors: Some(false),
            priority: None,
            history_limit: Some(100),
        }
    }
}

/// Whether `names` is a list and holds `name`.
pub open spec fn lists(names: Option<Vec<String>>, name: Seq<char>) -> bool {
    names matches Some(list) && list.deep_view().contains(name)
}

impl Config {
    /// Whether the exclude list names `name`.
    pub open spec fn excludes(&self, name: Seq<char>) -> bool {
        lists(self.exclude_rules, name)
    }

    /// Whether a rule called `name` may be active: the exclude list does not
    /// name it, and the include list, where there is one, does.
    pub open spec fn admits(&self, name: Seq<char>) -> bool {
        &&& !self.excludes(name)
        &&& self.rules is Some ==> lists(self.rules, name)
    }

    /// Whether a rule called `name` may be active.
    pub fn allows(&self, name: &str) -> (allowed: bool)
        ensures
            allowed == self.admits(name@),
    {
        if let Some(excluded) = &self.exclude_rules {
            assert(excluded.deep_view().take(excluded.len() as int) == excluded.deep_view());
            if text::listed_before(excluded, excluded.len(), name) {
                return false;
            }
        }
        if let Some(included) = &self.rules {
            assert(included.deep_view().take(included.len() as int) == included.deep_view());
            if !text::listed_before(included, included.len(), name) {
                return false;
            }
        }
        true
    }
}

/// Exclusion takes precedence over inclusion: a name on the exclude list is
/// not admitted, whatever the include list holds.
pub proof fn lemma_exclusion_wins(config: Config, name: Seq<char>)
    requires
        config.excludes(name),
    ensures
        !config.admits(name),
{
}

} // verus!
