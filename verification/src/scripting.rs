//! Rules that are written as scripts: a script defines the two functions
//! `matches` and `get_new_command`, which see the command as the variables
//! `script`, `stdout` and `stderr`. The scripts are run by the crate `rhai`.

use crate::rules::{nothing, only, Rule};
use crate::text::{chars_of, equal};
use crate::types::{Command, CommandView, Correction, CorrectionView, plain_correction};
use std::sync::Arc;
use vstd::prelude::*;
use vstd::string::StrSliceExecFns;
use vstd::string::StringExecFns;

verus! {

/// The interpreter of `rhai`. Nothing of what it holds is read here.
#[verifier::external_body]
pub struct Interpreter {
    inner: rhai::Engine,
}

/// A script that `rhai` has compiled.
#[verifier::external_type_specification]
#[verifier::external_body]
pub struct ExCompiledScript(rhai::AST);

/// The variables that a script sees.
#[verifier::external_type_specification]
#[verifier::external_body]
pub struct ExVariables<'a>(rhai::Scope<'a>);

/// The error with which `rhai` refuses a script.
#[verifier::external_type_specification]
#[verifier::external_body]
pub struct ExSyntaxError(rhai::ParseError);

/// The error with which a script ends that did not give a result.
#[verifier::external_type_specification]
#[verifier::external_body]
pub struct ExRunError(rhai::EvalAltResult);

/// How many operations a script may make in one call before it is stopped.
pub const MAX_OPERATIONS: u64 = 1_000_000;

/// The priority of the corrections of a rule that was loaded from a file.
pub const LOADED_PRIORITY: usize = 100;

/// Whether `source` is a script that `rhai` accepts, as the interpreter of
/// this library is set up.
pub uninterp spec fn compiles(source: Seq<char>) -> bool;

/// A new interpreter, made by `rhai::Engine::new`. Nothing is claimed of
/// it.
#[verifier::external_body]
fn new_interpreter() -> (interpreter: Interpreter) {
    Interpreter { inner: rhai::Engine::new() }
}

/// Lets `interpreter` stop every script after `max_operations` operations,
/// by `rhai::Engine::set_max_operations`. Nothing is claimed of the change.
#[verifier::external_body]
fn limit_operations(interpreter: &mut Interpreter, max_operations: u64) {
    interpreter.inner.set_max_operations(max_operations);
}

/// Compiles `source`.
///
/// This calls `rhai::Engine::compile` and is not proved: whether it accepts
/// the script is taken to be what `compiles` names. Every interpreter here
/// comes from `new_interpreter` and `limit_operations`, so all of them accept
/// the same scripts.
#[verifier::external_body]
fn compile(interpreter: &Interpreter, source: &str) -> (compiled: Result<
    rhai::AST,
    rhai::ParseError,
>)
    ensures
        (compiled is Ok) == compiles(source@),
{
    interpreter.inner.compile(source)
}

/// What `error` says, as `rhai` words it. Nothing is claimed of the text.
#[verifier::external_body]
fn describe(error: &rhai::ParseError) -> (message: String) {
    error.to_string()
}

/// The variables that `scope` holds, in the order in which they were added,
/// each with its name and the text that is its value.
pub uninterp spec fn variables_of(scope: rhai::Scope<'static>) -> Seq<(Seq<char>, Seq<char>)>;

/// A scope without variables.
///
/// This calls `rhai::Scope::new` and is not proved: what comes back is taken
/// to hold no variable.
#[verifier::external_body]
fn no_variables() -> (scope: rhai::Scope<'static>)
    ensures
        variables_of(scope) == Seq::<(Seq<char>, Seq<char>)>::empty(),
{
    rhai::Scope::new()
}

/// Adds the variable `name` with the text `value` to `scope`.
///
/// This calls `rhai::Scope::push` and is not proved: the variable is taken
/// to come behind those that `scope` held, which stay as they are.
#[verifier::external_body]
fn define(scope: &mut rhai::Scope<'static>, name: &str, value: &str)
    ensures
        variables_of(*final(scope)) == variables_of(*old(scope)).push((name@, value@)),
{
    scope.push(name.to_string(), value.to_string());
}

/// What a script sees of `command`: the variables `script`, `stdout` and
/// `stderr`, and nothing else.
pub open spec fn seen_by_script(command: CommandView) -> Seq<(Seq<char>, Seq<char>)> {
    seq![
        ("script"@, command.script),
        ("stdout"@, command.stdout),
        ("stderr"@, command.stderr),
    ]
}

/// Calls the function `entry` of a script for a truth value, by
/// `rhai::Engine::call_fn`. A script may do as it likes, so nothing is
/// claimed of the result.
#[verifier::external_body]
fn call_for_answer(
    interpreter: &Interpreter,
    scope: &mut rhai::Scope<'static>,
    compiled: &rhai::AST,
    entry: &str,
) -> (outcome: Result<bool, Box<rhai::EvalAltResult>>) {
    interpreter.inner.call_fn::<bool>(scope, compiled, entry, ())
}

/// Calls the function `entry` of a script for a text, by
/// `rhai::Engine::call_fn`. A script may do as it likes, so nothing is
/// claimed of the result.
#[verifier::external_body]
fn call_for_text(
    interpreter: &Interpreter,
    scope: &mut rhai::Scope<'static>,
    compiled: &rhai::AST,
    entry: &str,
) -> (outcome: Result<String, Box<rhai::EvalAltResult>>) {
    interpreter.inner.call_fn::<String>(scope, compiled, entry, ())
}

/// Why a script could not become a rule.
#[derive(Debug, Clone)]
pub enum ScriptError {
    /// The script does not compile; the text says why.
    DoesNotCompile(String),
}

/// A rule whose behavior is given by a script.
#[derive(Clone)]
pub struct RhaiRule {
    interpreter: Arc<Interpreter>,
    compiled: Arc<rhai::AST>,
    name: String,
    priority: usize,
}

/// The answer of a scripted rule, given how the call of `matches` ended: the
/// script's answer, and no where the call failed or gave no truth value.
pub open spec fn scripted_answer(outcome: Option<bool>) -> bool {
    outcome == Some(true)
}

/// The corrections of a scripted rule, given how the call of
/// `get_new_command` ended: the command line that the script gave, with the
/// priority of the rule, and none where the call failed or gave no text.
pub open spec fn scripted_corrections(
    outcome: Option<Seq<char>>,
    priority: usize,
) -> Seq<CorrectionView> {
    match outcome {
        Some(line) => seq![plain_correction(line, false, priority)],
        None => seq![],
    }
}

impl RhaiRule {
    /// The name of the rule.
    pub closed spec fn spec_name(&self) -> Seq<char> {
        self.name@
    }

    /// The priority of every correction of the rule.
    pub closed spec fn spec_priority(&self) -> usize {
        self.priority
    }

    /// The rule `name` whose behavior `script` defines and whose corrections
    /// have the priority `priority`. A script that does not compile is
    /// refused.
    pub fn new(name: String, script: &str, priority: usize) -> (made: Result<Self, ScriptError>)
        ensures
            (made is Ok) == compiles(script@),
            made matches Ok(rule) ==> rule.spec_name() == name@ && rule.spec_priority()
                == priority,
    {
        let mut interpreter = new_interpreter();
        limit_operations(&mut interpreter, MAX_OPERATIONS);
        match compile(&interpreter, script) {
            Ok(compiled) => Ok(
                Self {
                    interpreter: Arc::new(interpreter),
                    compiled: Arc::new(compiled),
                    name,
                    priority,
                },
            ),
            Err(error) => Err(ScriptError::DoesNotCompile(describe(&error))),
        }
    }

    /// The variables that the script sees for `command`: its `script`, its
    /// `stdout` and its `stderr`, and nothing else.
    fn variables(command: &Command) -> (scope: rhai::Scope<'static>)
        ensures
            variables_of(scope) == seen_by_script(command@),
    {
        let mut scope = no_variables();
        define(&mut scope, "script", command.script.as_str());
        define(&mut scope, "stdout", command.stdout.as_str());
        define(&mut scope, "stderr", command.stderr.as_str());
        scope
    }

    /// The priority of every correction of the rule.
    pub fn priority(&self) -> (priority: usize)
        ensures
            priority == self.spec_priority(),
    {
        self.priority
    }

    /// The answer of a scripted rule, given how the call of `matches` ended.
    pub fn answer_from(outcome: Option<bool>) -> (answer: bool)
        ensures
            answer == scripted_answer(outcome),
    {
        match outcome {
            Some(answer) => answer,
            None => false,
        }
    }

    /// The corrections of a scripted rule of priority `priority`, given how
    /// the call of `get_new_command` ended.
    pub fn corrections_from(outcome: Option<String>, priority: usize) -> (corrections: Vec<
        Correction,
    >)
        ensures
            corrections.deep_view() == scripted_corrections(outcome.deep_view(), priority),
    {
        match outcome {
            Some(line) => only(Correction::new(line, false, priority)),
            None => nothing(),
        }
    }
}

impl Rule for RhaiRule {
    open spec fn may_be_named(&self, name: Seq<char>) -> bool {
        name == self.spec_name()
    }

    /// What a script answers is its own affair.
    open spec fn may_answer(&self, command: CommandView, answer: bool) -> bool {
        true
    }

    /// Whatever the script does, the rule gives at most one correction, and
    /// that one has the priority of the rule and no side effect.
    open spec fn may_propose(&self, command: CommandView, corrections: Seq<CorrectionView>) -> bool {
        exists|outcome: Option<Seq<char>>|
            corrections == scripted_corrections(outcome, self.spec_priority())
    }

    fn matches(&self, command: &Command) -> (answer: bool) {
        let mut scope = RhaiRule::variables(command);
        let outcome = match call_for_answer(&self.interpreter, &mut scope, &self.compiled, "matches") {
            Ok(answer) => Some(answer),
            Err(_) => None,
        };
        RhaiRule::answer_from(outcome)
    }

    fn generate_corrections(&self, command: &Command) -> (corrections: Vec<Correction>) {
        let mut scope = RhaiRule::variables(command);
        let outcome = match call_for_text(
            &self.interpreter,
            &mut scope,
            &self.compiled,
            "get_new_command",
        ) {
            Ok(line) => Some(line),
            Err(_) => None,
        };
        let ghost given = outcome.deep_view();
        let corrections = RhaiRule::corrections_from(outcome, self.priority);
        assert(corrections.deep_view() == scripted_corrections(given, self.spec_priority()));
        corrections
    }

    fn name(&self) -> (name: &str) {
        self.name.as_str()
    }
}

/// Where the last `.` of `file_name` stands; -1 where it has none.
pub open spec fn last_dot(file_name: Seq<char>) -> int
    decreases file_name.len(),
{
    if file_name.len() == 0 {
        -1
    } else if file_name.last() == '.' {
        file_name.len() - 1
    } else {
        last_dot(file_name.drop_last())
    }
}

/// The extension of a file name: what follows its last `.`. A name without
/// a `.`, or with none but the one it begins with, has no extension.
pub open spec fn extension_of(file_name: Seq<char>) -> Option<Seq<char>> {
    let dot = last_dot(file_name);
    if dot <= 0 {
        None
    } else {
        Some(file_name.skip(dot + 1))
    }
}

/// The stem of a file name: what stands before its extension.
pub open spec fn stem_of(file_name: Seq<char>) -> Seq<char> {
    let dot = last_dot(file_name);
    if dot <= 0 {
        file_name
    } else {
        file_name.take(dot)
    }
}

/// A file of this name holds a scripted rule.
pub open spec fn names_script(file_name: Seq<char>) -> bool {
    extension_of(file_name) == Some("rhai"@)
}

/// The names of the rules that `sources` give, in their order. A source is
/// the name of a file and what the file holds; it gives a rule where the
/// name has the extension `rhai` and the content compiles, and the rule is
/// called by the stem of the file name.
pub open spec fn loaded_names(sources: Seq<(Seq<char>, Seq<char>)>) -> Seq<Seq<char>>
    decreases sources.len(),
{
    if sources.len() == 0 {
        seq![]
    } else {
        let earlier = loaded_names(sources.drop_last());
        let (file_name, content) = sources.last();
        if names_script(file_name) && compiles(content) {
            earlier.push(stem_of(file_name))
        } else {
            earlier
        }
    }
}

/// The position of the last `.` in `file_name`, if it has one.
fn find_last_dot(file_name: &Vec<char>) -> (dot: Option<usize>)
    ensures
        match dot {
            Some(at) => at < file_name.len() && at == last_dot(file_name@),
            None => last_dot(file_name@) == -1,
        },
{
    let mut end: usize = file_name.len();
    assert(file_name@.take(end as int) == file_name@);
    while end > 0
        invariant
            end <= file_name.len(),
            last_dot(file_name@) == last_dot(file_name@.take(end as int)),
        decreases end,
    {
        assert(file_name@.take(end as int).drop_last() == file_name@.take(end - 1));
        if file_name[end - 1] == '.' {
            return Some(end - 1);
        }
        end = end - 1;
    }
    None
}

/// Whether a file called `file_name` holds a scripted rule.
pub fn is_script_file(file_name: &str) -> (answer: bool)
    ensures
        answer == names_script(file_name@),
{
    let chars = chars_of(file_name);
    match find_last_dot(&chars) {
        Some(dot) => {
            if dot == 0 {
                return false;
            }
            let extension = file_name.substring_char(dot + 1, chars.len());
            assert(file_name@.subrange(dot + 1, chars@.len() as int) == file_name@.skip(dot + 1));
            equal(extension, "rhai")
        },
        None => false,
    }
}

/// The name of the rule that a file called `file_name` holds.
pub fn rule_name(file_name: &str) -> (name: String)
    ensures
        name@ == stem_of(file_name@),
{
    let chars = chars_of(file_name);
    match find_last_dot(&chars) {
        Some(dot) => {
            if dot == 0 {
                return String::from_str(file_name);
            }
            String::from_str(file_name.substring_char(0, dot))
        },
        None => String::from_str(file_name),
    }
}

/// The names of `rules`, in their order.
pub open spec fn names_of(rules: Seq<RhaiRule>) -> Seq<Seq<char>> {
    Seq::new(rules.len(), |i: int| rules[i].spec_name())
}

/// The scripted rules that `sources` give. A source is the name of a file
/// and what the file holds. A file that is no script by its name, and a
/// script that does not compile, give no rule and do not keep the others
/// from being loaded.
pub fn load_rhai_rules(sources: &Vec<(String, String)>) -> (rules: Vec<RhaiRule>)
    ensures
        names_of(rules@) == loaded_names(sources.deep_view()),
        forall|i: int| 0 <= i < rules.len() ==> (#[trigger] rules@[i]).spec_priority() == LOADED_PRIORITY,
{
    let mut rules: Vec<RhaiRule> = Vec::new();
    let mut i: usize = 0;
    assert(sources.deep_view().take(0) == Seq::<(Seq<char>, Seq<char>)>::empty());
    assert(names_of(rules@) == Seq::<Seq<char>>::empty());
    while i < sources.len()
        invariant
            i <= sources.len(),
            names_of(rules@) == loaded_names(sources.deep_view().take(i as int)),
            forall|j: int|
                0 <= j < rules.len() ==> (#[trigger] rules@[j]).spec_priority() == LOADED_PRIORITY,
        decreases sources.len() - i,
    {
        let ghost seen = sources.deep_view().take(i + 1);
        assert(seen.drop_last() == sources.deep_view().take(i as int));
        assert(seen.last() == (sources@[i as int].0@, sources@[i as int].1@));
        let file_name = sources[i].0.as_str();
        let content = sources[i].1.as_str();
        if is_script_file(file_name) {
            match RhaiRule::new(rule_name(file_name), content, LOADED_PRIORITY) {
                Ok(rule) => {
                    let ghost before = names_of(rules@);
                    rules.push(rule);
                    assert(names_of(rules@) == before.push(rule.spec_name()));
                },
                Err(_) => {},
            }
        }
        i = i + 1;
    }
    assert(sources.deep_view().take(i as int) == sources.deep_view());
    rules
}

} // verus!
