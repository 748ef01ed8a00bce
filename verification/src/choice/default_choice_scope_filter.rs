use vstd::prelude::*;
use super::ChoiceScopeFilter;
use crate::templates::{Scope, TemplateVariable, TemplateVariables, UserChoices};

verus! {

/// The choices made, by choice name: the display text, description and value of each.
pub type ChoicesView = Map<Seq<char>, (Seq<char>, Seq<char>, Seq<char>)>;

/// Whether `scope` lets its variable in, given the choices made.
/// With no choices made every scope lets its variable in. An include scope
/// lets it in when its choice (and value) was made; an exclude scope when its
/// choice (with that value) was not made.
pub open spec fn scope_included(choices: ChoicesView, scope: Scope) -> bool {
    if choices.dom().len() == 0 {
        true
    } else {
        match scope {
            Scope::IncludeChoiceValueScope(s) => choices.dom().contains(s.choice@) && choices[s.choice@].2
                == s.value@,
            Scope::IncludeChoiceScope(s) => choices.dom().contains(s.choice@),
            Scope::ExcludeChoiceValueScope(s) => !(choices.dom().contains(s.choice@)
                && choices[s.choice@].2 == s.not_value@),
            Scope::ExcludeChoiceScope(s) => !choices.dom().contains(s.not_choice@),
        }
    }
}

/// Whether a scope is an exclude scope.
pub open spec fn is_exclude_scope(scope: Scope) -> bool {
    scope is ExcludeChoiceValueScope || scope is ExcludeChoiceScope
}

/// Whether a variable with the given scopes is kept, given the choices made.
/// With no scopes it is kept. With no choices made it is kept when one of its
/// scopes is an exclude scope. Otherwise it is kept when any one of its scopes
/// lets it in.
pub open spec fn scopes_match(choices: ChoicesView, scopes: Seq<Scope>) -> bool {
    if scopes.len() == 0 {
        true
    } else if choices.dom().len() == 0 {
        exists|i: int| 0 <= i < scopes.len() && is_exclude_scope(#[trigger] scopes[i])
    } else {
        exists|i: int| 0 <= i < scopes.len() && scope_included(choices, #[trigger] scopes[i])
    }
}

/// Whether a variable is kept, given the choices made: one without scopes always is.
pub open spec fn variable_kept(choices: ChoicesView, v: TemplateVariable) -> bool {
    match v.scopes {
        Some(scopes) => scopes_match(choices, scopes@),
        None => true,
    }
}

/// The predicate `variable_kept` for fixed choices.
pub open spec fn kept_by(choices: ChoicesView) -> spec_fn(TemplateVariable) -> bool {
    |v: TemplateVariable| variable_kept(choices, v)
}

pub struct DefaultChoiceScopeFilter;

impl ChoiceScopeFilter for DefaultChoiceScopeFilter {
    /// Keeps, in order, the variables without scopes and those whose scopes
    /// match the choices made.
    fn filter_scopes(choices: &UserChoices, variables: &mut TemplateVariables)
        ensures
            final(variables).tokens@ == old(variables).tokens@.filter(kept_by(choices@)),
    {
        let mut tokens: Vec<TemplateVariable> = Vec::new();
        std::mem::swap(&mut tokens, &mut variables.tokens);
        let ghost all = tokens@;
        let mut kept: Vec<TemplateVariable> = Vec::new();
        for v in it: tokens
            invariant
                it.seq() == all,
                kept@ == all.take(it.index() as int).filter(kept_by(choices@)),
        {
            let ghost i = it.index();
            proof {
                assert(all.take(i + 1) =~= all.take(i as int).push(v));
                all.take(i as int).lemma_filter_push(v, kept_by(choices@));
            }
            let keep = match &v.scopes {
                Some(scopes) => Self::filter_scopes_by_choices(choices, scopes.as_slice()),
                None => true,
            };
            if keep {
                kept.push(v);
            }
        }
        assert(all.take(all.len() as int) =~= all);
        variables.tokens = kept;
    }
}

impl DefaultChoiceScopeFilter {
    /// Whether a variable with these scopes is kept, given the choices made.
    /// An include scope that matches always overrides an exclude scope that
    /// matches, and an exclude scope that does not match always overrides an
    /// include scope that does not match.
    pub fn filter_scopes_by_choices(choices: &UserChoices, scopes: &[Scope]) -> (r: bool)
        ensures
            r == scopes_match(choices@, scopes@),
    {
        if scopes.len() == 0 {
            return true;
        }
        let n = scopes.len();
        if choices.is_empty() {
            let mut i: usize = 0;
            while i < n
                invariant
                    n == scopes@.len(),
                    n > 0,
                    choices@.dom().len() == 0,
                    0 <= i <= n,
                    forall|j: int| 0 <= j < i ==> !is_exclude_scope(#[trigger] scopes@[j]),
                decreases n - i,
            {
                match &scopes[i] {
                    Scope::ExcludeChoiceScope(_) => {
                        assert(is_exclude_scope(scopes@[i as int]));
                        return true;
                    },
                    Scope::ExcludeChoiceValueScope(_) => {
                        assert(is_exclude_scope(scopes@[i as int]));
                        return true;
                    },
                    _ => {},
                }
                i = i + 1;
            }
            false
        } else {
            let mut i: usize = 0;
            while i < n
                invariant
                    n == scopes@.len(),
                    n > 0,
                    choices@.dom().len() != 0,
                    0 <= i <= n,
                    forall|j: int| 0 <= j < i ==> !scope_included(choices@, #[trigger] scopes@[j]),
                decreases n - i,
            {
                if Self::is_scope_included(choices, &scopes[i]) {
                    assert(scope_included(choices@, scopes@[i as int]));
                    return true;
                }
                i = i + 1;
            }
            false
        }
    }

    /// Whether `scope` lets its variable in, given the choices made.
    pub fn is_scope_included(choices: &UserChoices, scope: &Scope) -> (r: bool)
        ensures
            r == scope_included(choices@, *scope),
    {
        if choices.is_empty() {
            return true;
        }
        match scope {
            Scope::IncludeChoiceValueScope(s) => {
                match choices.get(&s.choice) {
                    Some(v) => v.value.value == s.value,
                    None => false,
                }
            },
            Scope::IncludeChoiceScope(s) => choices.contains_key(&s.choice),
            Scope::ExcludeChoiceValueScope(s) => {
                match choices.get(&s.choice) {
                    Some(v) => !(v.value.value == s.not_value),
                    None => true,
                }
            },
            Scope::ExcludeChoiceScope(s) => !choices.contains_key(&s.not_choice),
        }
    }
}

} // verus!

verus! {

/// Filtering a sequence twice by the same predicate keeps what filtering once keeps.
proof fn lemma_filter_idempotent<A>(s: Seq<A>, p: spec_fn(A) -> bool)
    ensures
        s.filter(p).filter(p) == s.filter(p),
    decreases s.len(),
{
    if s.len() > 0 {
        let t = s.drop_last();
        let x = s.last();
        lemma_filter_idempotent(t, p);
        assert(s =~= t.push(x));
        t.lemma_filter_push(x, p);
        if p(x) {
            t.filter(p).lemma_filter_push(x, p);
        }
    }
}

/// Law: filtering variables by the choices made a second time removes nothing more.
pub proof fn law_filter_scopes_idempotent(choices: ChoicesView, variables: Seq<TemplateVariable>)
    ensures
        variables.filter(kept_by(choices)).filter(kept_by(choices)) == variables.filter(kept_by(choices)),
{
    lemma_filter_idempotent(variables, kept_by(choices));
}

/// Law: a variable without scopes is kept whatever the choices.
pub proof fn law_unscoped_variable_kept(choices: ChoicesView, v: TemplateVariable)
    requires
        v.scopes is None || v.scopes->0@.len() == 0,
    ensures
        variable_kept(choices, v),
{
}

/// Law: with choices made, an include scope that matches keeps its variable,
/// whatever exclude scopes the variable also has.
pub proof fn law_matching_include_overrides_excludes(choices: ChoicesView, scopes: Seq<Scope>, i: int)
    requires
        choices.dom().len() != 0,
        0 <= i < scopes.len(),
        scopes[i] is IncludeChoiceValueScope || scopes[i] is IncludeChoiceScope,
        scope_included(choices, scopes[i]),
    ensures
        scopes_match(choices, scopes),
{
}

/// Law: with choices made, a variable is dropped exactly when every one of its
/// scopes shuts it out; so an exclude scope whose choice was not made keeps
/// it even beside an include scope that does not match.
pub proof fn law_kept_unless_all_scopes_exclude(choices: ChoicesView, scopes: Seq<Scope>)
    requires
        choices.dom().len() != 0,
        scopes.len() > 0,
    ensures
        !scopes_match(choices, scopes) <==> forall|i: int| 0 <= i < scopes.len() ==> !scope_included(choices, #[trigger] scopes[i]),
{
}

/// Law: with no choices made, a variable with scopes is kept exactly when one
/// of them is an exclude scope; every scope on its own lets its variable in.
pub proof fn law_no_choices(choices: ChoicesView, scopes: Seq<Scope>, scope: Scope)
    requires
        choices.dom().len() == 0,
        scopes.len() > 0,
    ensures
        scopes_match(choices, scopes) <==> exists|i: int| 0 <= i < scopes.len() && is_exclude_scope(#[trigger] scopes[i]),
        scope_included(choices, scope),
{
}

/// Law: the variables kept are among those given, in the same order, and are
/// exactly the ones the choices keep.
pub proof fn law_kept_variables(choices: ChoicesView, variables: Seq<TemplateVariable>)
    ensures
        forall|v: TemplateVariable| #[trigger] variables.filter(kept_by(choices)).contains(v)
            <==> variables.contains(v) && variable_kept(choices, v),
        variables.filter(kept_by(choices)).len() <= variables.len(),
{
    let p = kept_by(choices);
    let f = variables.filter(p);
    assert forall|v: TemplateVariable| #[trigger] f.contains(v) implies variables.contains(v) && variable_kept(choices, v) by {
        variables.lemma_filter_contains_rev(p, v);
        let i = choose|i: int| 0 <= i < f.len() && f[i] == v;
        variables.lemma_filter_pred(p, i);
    }
    assert forall|v: TemplateVariable| variables.contains(v) && variable_kept(choices, v) implies #[trigger] f.contains(v) by {
        let i = choose|i: int| 0 <= i < variables.len() && variables[i] == v;
        variables.lemma_filter_contains(p, i);
    }
    variables.lemma_filter_len(kept_by(choices));
}

} // verus!
