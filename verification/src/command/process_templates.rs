use vstd::prelude::*;
use crate::convert_case_filter_applicator::{case_expansion, law_case_expansion_is_determined, ConvertCaseFilterApplicator};
use crate::key_tokenizer::{tokenized, DefaultKeyTokenizer, KeyTokenizer};
use crate::template_variable_expander::{DefaultTemplateVariableExpander, TemplateVariableExpander};
use crate::templates::{TemplateVariable, TemplateVariables, UserVariables};
use crate::token_replacer::AhoCorasickTokenReplacer;
use crate::choice::{ChoiceScopeFilter, DefaultChoiceScopeFilter, SelectedChoices};
use crate::choice::default_choice_scope_filter::kept_by;
use crate::config::{ConfigShellHookStatus, TemplateDir, UserConfig};
use crate::error::{ZatAction, ZatResult};
use crate::template_config_validator::TemplateVariableReview;

verus! {

/// Processes the templates of a repository into a target directory.
pub struct ProcessTemplates;

/// The delimiter written on both sides of a key to make its token.
pub const TOKEN_DELIMITER: &'static str = "$";

/// The key of a token: what stands between its delimiters.
pub open spec fn token_key(token: Seq<char>) -> Seq<char> {
    token.subrange(TOKEN_DELIMITER@.len() as int, token.len() - TOKEN_DELIMITER@.len())
}

/// Whether `r` replaces exactly the tokens of `values`: the token of each key
/// by the value under that key, and nothing else.
pub open spec fn replaces_tokens_of(r: AhoCorasickTokenReplacer, values: Map<Seq<char>, Seq<char>>) -> bool {
    &&& r.patterns().len() == r.replacements().len()
    &&& r.patterns().no_duplicates()
    &&& forall|k: Seq<char>| #[trigger] values.dom().contains(k) ==> exists|i: int|
        0 <= i < r.patterns().len() && r.patterns()[i] == tokenized(TOKEN_DELIMITER@, k) && r.replacements()[i] == values[k]
    &&& forall|i: int| 0 <= i < r.patterns().len() ==> {
        let k = token_key(#[trigger] r.patterns()[i]);
        values.dom().contains(k) && r.patterns()[i] == tokenized(TOKEN_DELIMITER@, k) && r.replacements()[i] == values[k]
    }
}

/// Each value is replaced under its token, and each pattern is the token of a
/// value, when the patterns and replacements list a map whose keys are the
/// tokens of the values' keys.
proof fn lemma_tokens_of(
    p: Seq<Seq<char>>,
    q: Seq<Seq<char>>,
    t: Map<Seq<char>, Seq<char>>,
    values: Map<Seq<char>, Seq<char>>,
)
    requires
        p.len() == q.len(),
        p.to_set() == t.dom(),
        forall|i: int| 0 <= i < p.len() ==> #[trigger] t[p[i]] == q[i],
        forall|k: Seq<char>| t.dom().contains(k) <==> exists|k0: Seq<char>|
            values.dom().contains(k0) && k == #[trigger] tokenized(TOKEN_DELIMITER@, k0),
        forall|k0: Seq<char>| #[trigger] values.dom().contains(k0) ==> t[tokenized(TOKEN_DELIMITER@, k0)] == values[k0],
    ensures
        forall|k: Seq<char>| #[trigger] values.dom().contains(k) ==> exists|i: int|
            0 <= i < p.len() && p[i] == tokenized(TOKEN_DELIMITER@, k) && q[i] == values[k],
        forall|i: int| 0 <= i < p.len() ==> {
            let k = token_key(#[trigger] p[i]);
            values.dom().contains(k) && p[i] == tokenized(TOKEN_DELIMITER@, k) && q[i] == values[k]
        },
{
    assert forall|k: Seq<char>| #[trigger] values.dom().contains(k) implies exists|i: int|
        0 <= i < p.len() && p[i] == tokenized(TOKEN_DELIMITER@, k) && q[i] == values[k] by {
        let tk = tokenized(TOKEN_DELIMITER@, k);
        assert(t.dom().contains(tk));
        assert(p.to_set().contains(tk));
        let i = choose|i: int| 0 <= i < p.len() && p[i] == tk;
        assert(t[p[i]] == q[i]);
    }
    assert forall|i: int| 0 <= i < p.len() implies {
        let k = token_key(#[trigger] p[i]);
        values.dom().contains(k) && p[i] == tokenized(TOKEN_DELIMITER@, k) && q[i] == values[k]
    } by {
        assert(p.to_set().contains(p[i]));
        assert(t.dom().contains(p[i]));
        let k = choose|k: Seq<char>| values.dom().contains(k) && p[i] == #[trigger] tokenized(TOKEN_DELIMITER@, k);
        let d = TOKEN_DELIMITER@;
        assert(p[i].subrange(d.len() as int, p[i].len() - d.len()) =~= k);
        assert(t[p[i]] == q[i]);
    }
}

impl ProcessTemplates {
    /// The replacer of the tokens of the values the user confirmed: every
    /// value with the values its filters make, each under the token of its key.
    pub fn token_replacer(variables: TemplateVariables, user_variables: UserVariables) -> (r: AhoCorasickTokenReplacer)
        ensures
            replaces_tokens_of(r, case_expansion(variables.tokens@, user_variables@)),
    {
        let ghost tokens = variables.tokens@;
        let ghost inputs = user_variables@;
        let expander = DefaultTemplateVariableExpander::with_filter_applicator(ConvertCaseFilterApplicator);
        let expanded = expander.expand_filters(variables, user_variables);
        let ghost values = expanded.expanded_variables@;
        proof {
            law_case_expansion_is_determined(tokens, inputs, values);
        }
        let tokenizer = DefaultKeyTokenizer::new(TOKEN_DELIMITER);
        let keyed = tokenizer.tokenize_keys(expanded.expanded_variables);
        let ghost t = keyed@;
        proof {
            reveal_strlit("$");
            assert forall|k: Seq<char>| #[trigger] t.dom().contains(k) implies k.len() > 0 by {
                let k0 = choose|k0: Seq<char>| values.dom().contains(k0) && k == #[trigger] tokenized(TOKEN_DELIMITER@, k0);
                assert(TOKEN_DELIMITER@.len() == 1);
            }
        }
        let r = AhoCorasickTokenReplacer::new(keyed);
        proof {
            lemma_tokens_of(r.patterns(), r.replacements(), t, values);
            assert(replaces_tokens_of(r, values));
        }
        r
    }
}

/// How far a run of the process command has come.
#[derive(Debug, PartialEq)]
pub enum ProcessStep {
    /// Nothing has happened yet; the configuration is being built.
    Start,
    /// The variables of the configured repository are being read.
    ReadingVariables(UserConfig),
    /// The user is choosing among the options of the choice variables.
    Choosing(UserConfig),
    /// The user is supplying and reviewing the values of the variables.
    Reviewing(UserConfig),
    /// The template files are being written.
    Writing(UserConfig),
    /// The repository's shell hook is running.
    RunningHook(UserConfig),
    /// The command has finished.
    Done,
}

/// What the outside work of a step gave.
#[derive(Debug, PartialEq)]
pub enum ProcessEvent {
    /// The configuration was built, or could not be.
    Configured(ZatResult<UserConfig>),
    /// The variables of the repository were read, or could not be.
    VariablesRead(ZatResult<TemplateVariables>),
    /// The user made the choices, or could not.
    ChoicesMade(ZatResult<SelectedChoices>),
    /// The user's verdict on the values supplied for these variables.
    Reviewed(TemplateVariableReview, TemplateVariables),
    /// The template files were written, or could not be.
    FilesWritten(ZatAction),
    /// The shell hook ran, with this outcome.
    HookRan(ZatAction),
}

/// A message shown when the command finishes.
#[derive(Debug, PartialEq)]
pub enum ProcessNotice {
    Info(String),
    Warning(String),
}

/// What to do next.
#[derive(Debug)]
pub enum ProcessAction {
    /// Read the variables of the repository in this directory.
    ReadVariables(TemplateDir),
    /// Ask the user to choose for the choice variables among these.
    RunChoices(TemplateVariables),
    /// Ask the user for the values of these variables and to confirm them.
    Review(TemplateVariables),
    /// Write the template files, replacing tokens with this replacer.
    WriteFiles(AhoCorasickTokenReplacer),
    /// Run the shell hook at this path with the target directory as argument.
    RunShellHook(String, String),
    /// Finish with this result, showing the notice if there is one.
    Finish(ZatAction, Option<ProcessNotice>),
}

/// Whether `event` is what the outside work of `state` gives.
pub open spec fn event_fits(state: ProcessStep, event: ProcessEvent) -> bool {
    match state {
        ProcessStep::Start => event is Configured,
        ProcessStep::ReadingVariables(_) => event is VariablesRead,
        ProcessStep::Choosing(_) => event is ChoicesMade,
        ProcessStep::Reviewing(_) => event is Reviewed,
        ProcessStep::Writing(_) => event is FilesWritten,
        ProcessStep::RunningHook(_) => event is HookRan,
        ProcessStep::Done => false,
    }
}

/// The message shown once the template was written to `target`.
pub open spec fn extracted_message(target: Seq<char>) -> Seq<char> {
    "Extracted template to '"@ + target + "'"@
}

/// The warning shown when the user rejects the values.
pub open spec fn rejected_message() -> Seq<char> {
    "The user rejected the variables."@
}

/// Whether `r` finishes with `result` and no notice.
pub open spec fn finishes_with(r: (ProcessStep, ProcessAction), result: ZatAction) -> bool {
    r.0 is Done && r.1 == ProcessAction::Finish(result, None)
}

/// Whether `r` finishes successfully, telling that the template was written to `target`.
pub open spec fn finishes_extracted(r: (ProcessStep, ProcessAction), target: Seq<char>) -> bool {
    &&& r.0 is Done
    &&& r.1 matches ProcessAction::Finish(Ok(()), Some(ProcessNotice::Info(m)))
    &&& m@ == extracted_message(target)
}

/// What the process command does after `event` in `state`.
pub open spec fn process_transition(state: ProcessStep, event: ProcessEvent, r: (ProcessStep, ProcessAction)) -> bool {
    match state {
        ProcessStep::Start => match event {
            ProcessEvent::Configured(Err(e)) => finishes_with(r, Err(e)),
            ProcessEvent::Configured(Ok(c)) => {
                &&& r.0 == ProcessStep::ReadingVariables(c)
                &&& r.1 matches ProcessAction::ReadVariables(d)
                &&& d@ == c.template_dir@
            },
            _ => true,
        },
        ProcessStep::ReadingVariables(c) => match event {
            ProcessEvent::VariablesRead(Err(e)) => finishes_with(r, Err(e)),
            ProcessEvent::VariablesRead(Ok(v)) => r == (ProcessStep::Choosing(c), ProcessAction::RunChoices(v)),
            _ => true,
        },
        ProcessStep::Choosing(c) => match event {
            ProcessEvent::ChoicesMade(Err(e)) => finishes_with(r, Err(e)),
            ProcessEvent::ChoicesMade(Ok(s)) => {
                &&& r.0 == ProcessStep::Reviewing(c)
                &&& r.1 matches ProcessAction::Review(v)
                &&& v.tokens@ == s.variables.tokens@.filter(kept_by(s.choices@))
            },
            _ => true,
        },
        ProcessStep::Reviewing(c) => match event {
            ProcessEvent::Reviewed(TemplateVariableReview::Rejected, _) => {
                &&& r.0 is Done
                &&& r.1 matches ProcessAction::Finish(Ok(()), Some(ProcessNotice::Warning(m)))
                &&& m@ == rejected_message()
            },
            ProcessEvent::Reviewed(TemplateVariableReview::Accepted(vc), vars) => {
                &&& r.0 == ProcessStep::Writing(c)
                &&& r.1 matches ProcessAction::WriteFiles(t)
                &&& replaces_tokens_of(t, case_expansion(vars.tokens@, vc.user_variables@))
            },
            _ => true,
        },
        ProcessStep::Writing(c) => match event {
            ProcessEvent::FilesWritten(Err(e)) => finishes_with(r, Err(e)),
            ProcessEvent::FilesWritten(Ok(_)) => match c.shell_hook_status {
                ConfigShellHookStatus::RunShellHook(h) => {
                    &&& r.0 == ProcessStep::RunningHook(c)
                    &&& r.1 matches ProcessAction::RunShellHook(hook, target)
                    &&& hook@ == h@
                    &&& target@ == c.target_dir.path@
                },
                ConfigShellHookStatus::NoShellHook => finishes_extracted(r, c.target_dir.path@),
            },
            _ => true,
        },
        ProcessStep::RunningHook(c) => match event {
            ProcessEvent::HookRan(Err(e)) => finishes_with(r, Err(e)),
            ProcessEvent::HookRan(Ok(_)) => finishes_extracted(r, c.target_dir.path@),
            _ => true,
        },
        ProcessStep::Done => true,
    }
}

fn extracted_notice(target: &String) -> (r: ProcessNotice)
    ensures
        r matches ProcessNotice::Info(m) && m@ == extracted_message(target@),
{
    let mut m = "Extracted template to '".to_string();
    m.append(target.as_str());
    m.append("'");
    ProcessNotice::Info(m)
}

impl ProcessTemplates {
    /// Whether `event` is what the outside work of `state` gives.
    pub fn fits(state: &ProcessStep, event: &ProcessEvent) -> (r: bool)
        ensures
            r == event_fits(*state, *event),
    {
        match state {
            ProcessStep::Start => matches!(event, ProcessEvent::Configured(_)),
            ProcessStep::ReadingVariables(_) => matches!(event, ProcessEvent::VariablesRead(_)),
            ProcessStep::Choosing(_) => matches!(event, ProcessEvent::ChoicesMade(_)),
            ProcessStep::Reviewing(_) => matches!(event, ProcessEvent::Reviewed(_, _)),
            ProcessStep::Writing(_) => matches!(event, ProcessEvent::FilesWritten(_)),
            ProcessStep::RunningHook(_) => matches!(event, ProcessEvent::HookRan(_)),
            ProcessStep::Done => false,
        }
    }

    /// The next step of the process command, and what to do for it, given
    /// what the outside work of the last step gave. Any failure finishes the
    /// command with that error, so nothing later happens: in particular no
    /// file is written when the configuration or the variables could not be
    /// had, and the shell hook does not run when writing failed. When the
    /// user rejects the values nothing is written and the command finishes
    /// with a warning. Accepted values are expanded and their tokens written;
    /// then the shell hook runs with the target directory, when there is one.
    pub fn process_next(state: ProcessStep, event: ProcessEvent) -> (r: (ProcessStep, ProcessAction))
        requires
            event_fits(state, event),
        ensures
            process_transition(state, event, r),
    {
        match state {
            ProcessStep::Start => match event {
                ProcessEvent::Configured(Err(e)) => (ProcessStep::Done, ProcessAction::Finish(Err(e), None)),
                ProcessEvent::Configured(Ok(c)) => {
                    let d = c.template_dir.duplicate();
                    (ProcessStep::ReadingVariables(c), ProcessAction::ReadVariables(d))
                },
                _ => (ProcessStep::Done, ProcessAction::Finish(Ok(()), None)),
            },
            ProcessStep::ReadingVariables(c) => match event {
                ProcessEvent::VariablesRead(Err(e)) => (ProcessStep::Done, ProcessAction::Finish(Err(e), None)),
                ProcessEvent::VariablesRead(Ok(v)) => (ProcessStep::Choosing(c), ProcessAction::RunChoices(v)),
                _ => (ProcessStep::Done, ProcessAction::Finish(Ok(()), None)),
            },
            ProcessStep::Choosing(c) => match event {
                ProcessEvent::ChoicesMade(Err(e)) => (ProcessStep::Done, ProcessAction::Finish(Err(e), None)),
                ProcessEvent::ChoicesMade(Ok(s)) => {
                    let mut variables = s.variables;
                    DefaultChoiceScopeFilter::filter_scopes(&s.choices, &mut variables);
                    (ProcessStep::Reviewing(c), ProcessAction::Review(variables))
                },
                _ => (ProcessStep::Done, ProcessAction::Finish(Ok(()), None)),
            },
            ProcessStep::Reviewing(c) => match event {
                ProcessEvent::Reviewed(TemplateVariableReview::Rejected, _) => {
                    let m = "The user rejected the variables.".to_string();
                    (ProcessStep::Done, ProcessAction::Finish(Ok(()), Some(ProcessNotice::Warning(m))))
                },
                ProcessEvent::Reviewed(TemplateVariableReview::Accepted(vc), vars) => {
                    let t = ProcessTemplates::token_replacer(vars, vc.user_variables);
                    (ProcessStep::Writing(c), ProcessAction::WriteFiles(t))
                },
                _ => (ProcessStep::Done, ProcessAction::Finish(Ok(()), None)),
            },
            ProcessStep::Writing(c) => match event {
                ProcessEvent::FilesWritten(Err(e)) => (ProcessStep::Done, ProcessAction::Finish(Err(e), None)),
                ProcessEvent::FilesWritten(Ok(_)) => {
                    let action = match &c.shell_hook_status {
                        ConfigShellHookStatus::RunShellHook(h) => Some(
                            ProcessAction::RunShellHook(h.clone(), c.target_dir.path.clone()),
                        ),
                        ConfigShellHookStatus::NoShellHook => None,
                    };
                    match action {
                        Some(a) => (ProcessStep::RunningHook(c), a),
                        None => {
                            let n = extracted_notice(&c.target_dir.path);
                            (ProcessStep::Done, ProcessAction::Finish(Ok(()), Some(n)))
                        },
                    }
                },
                _ => (ProcessStep::Done, ProcessAction::Finish(Ok(()), None)),
            },
            ProcessStep::RunningHook(c) => match event {
                ProcessEvent::HookRan(Err(e)) => (ProcessStep::Done, ProcessAction::Finish(Err(e), None)),
                ProcessEvent::HookRan(Ok(_)) => {
                    let n = extracted_notice(&c.target_dir.path);
                    (ProcessStep::Done, ProcessAction::Finish(Ok(()), Some(n)))
                },
                _ => (ProcessStep::Done, ProcessAction::Finish(Ok(()), None)),
            },
            ProcessStep::Done => (ProcessStep::Done, ProcessAction::Finish(Ok(()), None)),
        }
    }
}

} // verus!
