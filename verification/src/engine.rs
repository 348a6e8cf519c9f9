//! The engine: the rules that are active under a configuration, and the
//! corrections that they propose for a command.

use crate::config::Config;
use crate::ranking::{
    is_ranking_of, lemma_ranking_ranks, lemma_ranking_unique, rank, ranked, ranking,
};
use crate::rules::{determined, has_stable_name, Rule};
use crate::types::{Command, CommandView, Correction, CorrectionView};
use vstd::prelude::*;

verus! {

/// The active rules, in the order of their registration, and the
/// configuration that admitted them.
pub struct Engine<R: Rule> {
    rules: Vec<R>,
    config: Config,
}

/// The state of an [`Engine`].
pub struct EngineView<R> {
    pub rules: Seq<R>,
    pub config: Config,
}

/// The engine after `rule` was offered to it under the name `name`: `rule`
/// comes last among the active rules where the configuration admits the
/// name, and nothing changes where it does not.
pub open spec fn registered<R: Rule>(
    engine: EngineView<R>,
    rule: R,
    name: Seq<char>,
) -> EngineView<R> {
    if engine.config.admits(name) {
        EngineView { rules: engine.rules.push(rule), config: engine.config }
    } else {
        engine
    }
}

/// The configuration admits a name that `rule` may give.
pub open spec fn passes<R: Rule>(config: Config, rule: R) -> bool {
    exists|name: Seq<char>| rule.may_be_named(name) && config.admits(name)
}

/// Every active rule passed the filter of the configuration.
pub open spec fn filtered<R: Rule>(engine: EngineView<R>) -> bool {
    forall|i: int| 0 <= i < engine.rules.len() ==> passes(engine.config, #[trigger] engine.rules[i])
}

/// What one rule may add on `command`: nothing where it answers that it does
/// not match, and else what it proposes.
pub open spec fn may_contribute<R: Rule>(
    rule: R,
    command: CommandView,
    part: Seq<CorrectionView>,
) -> bool {
    ||| rule.may_answer(command, false) && part.len() == 0
    ||| rule.may_answer(command, true) && rule.may_propose(command, part)
}

/// `parts` holds, rule by rule, what `rules` may add on `command`.
pub open spec fn contributions<R: Rule>(
    rules: Seq<R>,
    command: CommandView,
    parts: Seq<Seq<CorrectionView>>,
) -> bool {
    &&& parts.len() == rules.len()
    &&& forall|i: int| 0 <= i < rules.len() ==> may_contribute(rules[i], command, #[trigger] parts[i])
}

/// `corrections` may be what `rules` give on `command`: the contributions of
/// the rules, in the order of the rules, ranked by priority.
pub open spec fn may_correct<R: Rule>(
    rules: Seq<R>,
    command: CommandView,
    corrections: Seq<CorrectionView>,
) -> bool {
    exists|parts: Seq<Seq<CorrectionView>>|
        contributions(rules, command, parts) && is_ranking_of(corrections, parts.flatten())
}

impl<R: Rule> View for Engine<R> {
    type V = EngineView<R>;

    closed spec fn view(&self) -> EngineView<R> {
        EngineView { rules: self.rules@, config: self.config }
    }
}

impl<R: Rule> Engine<R> {
    /// An engine without rules, under `config`.
    pub fn new(config: Config) -> (engine: Self)
        ensures
            engine@.rules.len() == 0,
            engine@.config == config,
            filtered(engine@),
    {
        Self { rules: Vec::new(), config }
    }

    /// Offers `rule` to the engine. A rule that the exclude list names is
    /// dropped; so is one that an include list, where there is one, does not
    /// name; any other becomes the last of the active rules.
    pub fn register_rule(&mut self, rule: R)
        ensures
            exists|name: Seq<char>|
                rule.may_be_named(name) && final(self)@ == registered(old(self)@, rule, name),
    {
        let name = rule.name();
        let ghost given = name@;
        let admitted = self.config.allows(name);
        if admitted {
            self.rules.push(rule);
        }
        assert(rule.may_be_named(given) && self@ == registered(old(self)@, rule, given));
    }

    /// The active rules, in the order of their registration.
    pub fn rules(&self) -> (rules: &Vec<R>)
        ensures
            rules@ == self@.rules,
    {
        &self.rules
    }

    /// The configuration that the engine was made with.
    pub fn config(&self) -> (config: &Config)
        ensures
            *config == self@.config,
    {
        &self.config
    }

    /// The corrections for `command`. Each active rule is asked, in the order
    /// of registration, whether it matches, and only one that does is asked
    /// for its corrections; all of them together are ranked by priority.
    pub fn get_corrections(&self, command: &Command) -> (corrections: Vec<Correction>)
        ensures
            ranked(corrections.deep_view()),
            may_correct(self@.rules, command@, corrections.deep_view()),
    {
        let mut proposed: Vec<Correction> = Vec::new();
        let ghost mut parts: Seq<Seq<CorrectionView>> = Seq::empty();
        let mut i: usize = 0;
        assert(self.rules@.take(0) == Seq::<R>::empty());
        assert(proposed.deep_view() == Seq::<CorrectionView>::empty());
        while i < self.rules.len()
            invariant
                i <= self.rules.len(),
                contributions(self.rules@.take(i as int), command@, parts),
                proposed.deep_view() == parts.flatten(),
            decreases self.rules.len() - i,
        {
            let rule = &self.rules[i];
            let ghost before = proposed.deep_view();
            let ghost part: Seq<CorrectionView>;
            if rule.matches(command) {
                let mut found = rule.generate_corrections(command);
                proof {
                    part = found.deep_view();
                }
                proposed.append(&mut found);
                assert(proposed.deep_view() == before + part);
            } else {
                proof {
                    part = Seq::empty();
                }
                assert(proposed.deep_view() == before + part);
            }
            proof {
                let earlier = parts;
                parts = parts.push(part);
                earlier.lemma_flatten_push(part);
                let seen = self.rules@.take(i + 1);
                assert forall|k: int| 0 <= k < seen.len() implies may_contribute(
                    seen[k],
                    command@,
                    #[trigger] parts[k],
                ) by {
                    if k < i {
                        assert(seen[k] == self.rules@.take(i as int)[k]);
                        assert(parts[k] == earlier[k]);
                    }
                }
            }
            i = i + 1;
        }
        assert(self.rules@.take(i as int) == self.rules@);
        rank(proposed)
    }
}

/// Offering the same rule twice to an engine gives the same decision both
/// times: registration leaves the configuration as it is, so a rule with one
/// name is admitted twice or dropped twice.
pub proof fn lemma_registration_repeats<R: Rule>(
    engine: EngineView<R>,
    rule: R,
    first: Seq<char>,
    second: Seq<char>,
)
    requires
        has_stable_name(&rule),
        rule.may_be_named(first),
        rule.may_be_named(second),
    ensures
        registered(engine, rule, first).config == engine.config,
        engine.config.admits(first) == registered(engine, rule, first).config.admits(second),
        registered(engine, rule, first).rules.len() - engine.rules.len() == registered(
            registered(engine, rule, first),
            rule,
            second,
        ).rules.len() - registered(engine, rule, first).rules.len(),
{
}

/// Registration keeps the filter: where every active rule passed it, the
/// same holds after a rule was offered.
pub proof fn lemma_registration_filters<R: Rule>(engine: EngineView<R>, rule: R, name: Seq<char>)
    requires
        filtered(engine),
        rule.may_be_named(name),
    ensures
        filtered(registered(engine, rule, name)),
{
    let after = registered(engine, rule, name);
    assert forall|i: int| 0 <= i < after.rules.len() implies passes(
        after.config,
        #[trigger] after.rules[i],
    ) by {
        if i < engine.rules.len() {
            assert(passes(engine.config, engine.rules[i]));
        }
    }
}

/// Exclusion takes precedence over inclusion: a rule offered under a name
/// that the exclude list holds is not registered, whatever the include list
/// holds.
pub proof fn lemma_excluded_not_registered<R: Rule>(
    engine: EngineView<R>,
    rule: R,
    name: Seq<char>,
)
    requires
        engine.config.excludes(name),
    ensures
        registered(engine, rule, name) == engine,
{
}

/// A rule that answers that it does not match adds nothing: where every rule
/// of `rules` can only answer so on `command`, there are no corrections.
pub proof fn lemma_no_match_no_corrections<R: Rule>(
    rules: Seq<R>,
    command: CommandView,
    corrections: Seq<CorrectionView>,
)
    requires
        forall|i: int| 0 <= i < rules.len() ==> !(#[trigger] rules[i]).may_answer(command, true),
        may_correct(rules, command, corrections),
    ensures
        corrections.len() == 0,
{
    let parts = choose|parts: Seq<Seq<CorrectionView>>|
        contributions(rules, command, parts) && is_ranking_of(corrections, parts.flatten());
    lemma_flatten_empty_parts(parts);
}

/// Parts that are all empty hold nothing together.
proof fn lemma_flatten_empty_parts(parts: Seq<Seq<CorrectionView>>)
    requires
        forall|i: int| 0 <= i < parts.len() ==> (#[trigger] parts[i]).len() == 0,
    ensures
        parts.flatten().len() == 0,
    decreases parts.len(),
{
    if parts.len() > 0 {
        assert(parts.first() == parts[0]);
        assert forall|i: int| 0 <= i < parts.drop_first().len() implies (
        #[trigger] parts.drop_first()[i]).len() == 0 by {
            assert(parts.drop_first()[i] == parts[i + 1]);
        }
        lemma_flatten_empty_parts(parts.drop_first());
    }
}

/// Where the rules depend on the command alone, the corrections are the
/// ranking of what the rules add, one after the other.
pub proof fn lemma_corrections_are_ranking<R: Rule>(
    rules: Seq<R>,
    command: CommandView,
    parts: Seq<Seq<CorrectionView>>,
    corrections: Seq<CorrectionView>,
)
    requires
        forall|i: int| 0 <= i < rules.len() ==> determined(#[trigger] rules[i], command),
        contributions(rules, command, parts),
        may_correct(rules, command, corrections),
    ensures
        corrections == ranking(parts.flatten()),
{
    let others = choose|others: Seq<Seq<CorrectionView>>|
        contributions(rules, command, others) && is_ranking_of(corrections, others.flatten());
    assert forall|i: int| 0 <= i < rules.len() implies parts[i] == others[i] by {
        assert(determined(rules[i], command));
        assert(may_contribute(rules[i], command, parts[i]));
        assert(may_contribute(rules[i], command, others[i]));
    }
    assert(parts == others);
    lemma_ranking_ranks(parts.flatten());
    lemma_ranking_unique(corrections, ranking(parts.flatten()), parts.flatten());
}

/// Rules that depend on the command alone determine the corrections: the
/// engine can give one result only.
pub proof fn lemma_corrections_determined<R: Rule>(
    rules: Seq<R>,
    command: CommandView,
    first: Seq<CorrectionView>,
    second: Seq<CorrectionView>,
)
    requires
        forall|i: int| 0 <= i < rules.len() ==> determined(#[trigger] rules[i], command),
        may_correct(rules, command, first),
        may_correct(rules, command, second),
    ensures
        first == second,
{
    let parts = choose|parts: Seq<Seq<CorrectionView>>|
        contributions(rules, command, parts) && is_ranking_of(first, parts.flatten());
    lemma_corrections_are_ranking(rules, command, parts, first);
    lemma_corrections_are_ranking(rules, command, parts, second);
}

} // verus!
