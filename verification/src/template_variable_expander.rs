//! Expands the values a user supplied for variables with the filters each
//! variable defines.

use vstd::prelude::*;
use crate::str_map::{StrMap, pairs_to_map, lemma_pairs_to_map_push, lemma_pairs_to_map_last, lemma_pairs_to_map_absent};
use crate::templates::{FilterType, TemplateVariable, TemplateVariables, UserVariables};

verus! {

/// The name of the filter that replaces a variable's own value.
pub const DEFAULT_FILTER: &'static str = "__default__";

/// The characters of `DEFAULT_FILTER`.
pub open spec fn default_filter_name() -> Seq<char> {
    seq!['_', '_', 'd', 'e', 'f', 'a', 'u', 'l', 't', '_', '_']
}

/// A key under which an expanded value is available.
#[derive(Debug, Clone, PartialEq)]
pub struct ExpandedKey {
    pub value: String,
}

/// A value of a variable after a filter was applied.
#[derive(Debug, Clone, PartialEq)]
pub struct ExpandedValue {
    pub value: String,
}

impl View for ExpandedKey {
    type V = Seq<char>;

    open spec fn view(&self) -> Seq<char> {
        self.value@
    }
}

impl View for ExpandedValue {
    type V = Seq<char>;

    open spec fn view(&self) -> Seq<char> {
        self.value@
    }
}

impl ExpandedKey {
    pub fn new(value: String) -> (r: Self)
        ensures
            r@ == value@,
    {
        ExpandedKey { value }
    }
}

impl ExpandedValue {
    pub fn new(value: String) -> (r: Self)
        ensures
            r@ == value@,
    {
        ExpandedValue { value }
    }
}

/// All expanded values, by key.
#[derive(Debug, PartialEq)]
pub struct ExpandedVariables {
    pub expanded_variables: StrMap<ExpandedValue>,
}

impl ExpandedVariables {
    pub fn new(expanded_variables: StrMap<ExpandedValue>) -> (r: Self)
        ensures
            r.expanded_variables@ == expanded_variables@,
    {
        ExpandedVariables { expanded_variables }
    }
}

/// Applies the conversion a filter names to a value.
pub trait FilterApplicator {
    /// Whether `output` is what this applicator gives for `value` under the
    /// filter `filter_type`. An applicator that does not describe itself
    /// promises nothing of its outputs.
    open spec fn applies(&self, filter_type: FilterType, value: Seq<char>, output: Seq<char>) -> bool {
        true
    }

    fn apply_filter(&self, filter_type: &FilterType, value: &str) -> (r: String)
        ensures
            self.applies(*filter_type, value@, r@),
    ;
}

/// Expands user-supplied values by the filters of their variables.
pub trait TemplateVariableExpander {
    fn expand_filters(&self, variables: TemplateVariables, user_inputs: UserVariables) -> ExpandedVariables;
}

/// The key under which a variable's value, filtered by a filter with the
/// given name, is available: the default filter's is the variable's own name;
/// any other joins the variable's name and the filter's name with `_`.
pub open spec fn filter_key(variable_name: Seq<char>, filter_name: Seq<char>) -> Seq<char> {
    if filter_name == default_filter_name() {
        variable_name
    } else {
        variable_name + seq!['_'] + filter_name
    }
}

/// The pairs a variable with user value `x` expands to, in order: its own
/// name with `x`, then one pair per filter, the `j`-th with the value
/// `filtered[j]` that filter gave.
pub open spec fn variable_entries(v: TemplateVariable, x: Seq<char>, filtered: Seq<Seq<char>>) -> Seq<(Seq<char>, Seq<char>)> {
    seq![(v.variable_name@, x)] + Seq::new(
        v.filters@.len(),
        |j: int| (filter_key(v.variable_name@, v.filters@[j].name@), filtered[j]),
    )
}

/// The pairs all variables with a user value expand to, variable by
/// variable, the `i`-th variable's filters having given `outputs[i]`.
pub open spec fn expansion_entries(
    tokens: Seq<TemplateVariable>,
    inputs: Map<Seq<char>, Seq<char>>,
    outputs: Seq<Seq<Seq<char>>>,
) -> Seq<(Seq<char>, Seq<char>)>
    decreases tokens.len(),
{
    if tokens.len() == 0 {
        Seq::empty()
    } else {
        let rest = expansion_entries(tokens.drop_last(), inputs, outputs.drop_last());
        let v = tokens.last();
        if inputs.dom().contains(v.variable_name@) {
            rest + variable_entries(v, inputs[v.variable_name@], outputs.last())
        } else {
            rest
        }
    }
}

/// The expansion of user values, given what the filters gave: later pairs
/// override earlier ones with the same key.
pub open spec fn expanded_map(
    tokens: Seq<TemplateVariable>,
    inputs: Map<Seq<char>, Seq<char>>,
    outputs: Seq<Seq<Seq<char>>>,
) -> Map<Seq<char>, Seq<char>> {
    pairs_to_map(expansion_entries(tokens, inputs, outputs))
}

/// Whether `row` holds, filter by filter, what the applicator gives for the
/// user value of `v`, when the user supplied one.
pub open spec fn row_outputs<F: FilterApplicator>(
    app: F,
    v: TemplateVariable,
    inputs: Map<Seq<char>, Seq<char>>,
    row: Seq<Seq<char>>,
) -> bool {
    inputs.dom().contains(v.variable_name@) ==> {
        &&& row.len() == v.filters@.len()
        &&& forall|j: int|
            0 <= j < v.filters@.len() ==> app.applies(
                v.filters@[j].filter,
                inputs[v.variable_name@],
                #[trigger] row[j],
            )
    }
}

/// Whether `outputs` are values the applicator gives: for each variable with
/// a user value and each of its filters, what the applicator gives for that
/// value under that filter.
pub open spec fn filter_outputs<F: FilterApplicator>(
    app: F,
    tokens: Seq<TemplateVariable>,
    inputs: Map<Seq<char>, Seq<char>>,
    outputs: Seq<Seq<Seq<char>>>,
) -> bool {
    &&& outputs.len() == tokens.len()
    &&& forall|i: int| 0 <= i < tokens.len() ==> row_outputs(app, tokens[i], inputs, #[trigger] outputs[i])
}

/// Outputs for one more variable extend outputs for those before it.
proof fn lemma_filter_outputs_push<F: FilterApplicator>(
    app: F,
    tokens: Seq<TemplateVariable>,
    inputs: Map<Seq<char>, Seq<char>>,
    outputs: Seq<Seq<Seq<char>>>,
    v: TemplateVariable,
    row: Seq<Seq<char>>,
)
    requires
        filter_outputs(app, tokens, inputs, outputs),
        row_outputs(app, v, inputs, row),
    ensures
        filter_outputs(app, tokens.push(v), inputs, outputs.push(row)),
{
    let t = tokens.push(v);
    let o = outputs.push(row);
    assert forall|i: int| 0 <= i < t.len() implies row_outputs(app, t[i], inputs, #[trigger] o[i]) by {
        if i < tokens.len() {
            assert(t[i] == tokens[i]);
            assert(o[i] == outputs[i]);
        } else {
            assert(t[i] == v);
            assert(o[i] == row);
        }
    }
}

/// The expansion depends on what the filters gave only for variables with a
/// user value.
pub proof fn lemma_expansion_same_rows(
    tokens: Seq<TemplateVariable>,
    inputs: Map<Seq<char>, Seq<char>>,
    o1: Seq<Seq<Seq<char>>>,
    o2: Seq<Seq<Seq<char>>>,
)
    requires
        o1.len() == tokens.len(),
        o2.len() == tokens.len(),
        forall|i: int|
            0 <= i < tokens.len() && inputs.dom().contains(tokens[i].variable_name@) ==> #[trigger] o1[i] == o2[i],
    ensures
        expansion_entries(tokens, inputs, o1) == expansion_entries(tokens, inputs, o2),
    decreases tokens.len(),
{
    if tokens.len() > 0 {
        let t = tokens.drop_last();
        assert forall|i: int| 0 <= i < t.len() && inputs.dom().contains(t[i].variable_name@) implies #[trigger] o1.drop_last()[i]
            == o2.drop_last()[i] by {
            assert(t[i] == tokens[i]);
            assert(o1[i] == o2[i]);
        }
        lemma_expansion_same_rows(t, inputs, o1.drop_last(), o2.drop_last());
        let l = tokens.len() - 1;
        if inputs.dom().contains(tokens[l].variable_name@) {
            assert(o1[l] == o2[l]);
        }
    }
}

/// Whether `m` is the expansion of the user values by the applicator: the
/// expansion for values its filters give.
pub open spec fn expands_to<F: FilterApplicator>(
    app: F,
    tokens: Seq<TemplateVariable>,
    inputs: Map<Seq<char>, Seq<char>>,
    m: Map<Seq<char>, Seq<char>>,
) -> bool {
    exists|outputs: Seq<Seq<Seq<char>>>|
        #![trigger expanded_map(tokens, inputs, outputs)]
        filter_outputs(app, tokens, inputs, outputs) && m == expanded_map(tokens, inputs, outputs)
}

/// Expands user values with a filter applicator supplied on construction.
pub struct DefaultTemplateVariableExpander<F: FilterApplicator> {
    pub filter_applicator: F,
}

impl<F: FilterApplicator> DefaultTemplateVariableExpander<F> {
    pub fn with_filter_applicator(filter_applicator: F) -> (r: Self)
        ensures
            r.filter_applicator == filter_applicator,
    {
        DefaultTemplateVariableExpander { filter_applicator }
    }

    /// The key for a variable's value filtered by the filter named `filter_name`.
    pub fn filter_key(variable_name: &String, filter_name: &String) -> (r: String)
        ensures
            r@ == filter_key(variable_name@, filter_name@),
    {
        let default_name = DEFAULT_FILTER.to_string();
        proof {
            reveal_strlit("__default__");
            assert(DEFAULT_FILTER@ =~= default_filter_name());
        }
        if *filter_name == default_name {
            variable_name.clone()
        } else {
            let mut key = variable_name.clone();
            key.append("_");
            key.append(filter_name.as_str());
            proof {
                reveal_strlit("_");
                assert(key@ =~= variable_name@ + seq!['_'] + filter_name@);
            }
            key
        }
    }
}

impl<F: FilterApplicator> TemplateVariableExpander for DefaultTemplateVariableExpander<F> {
    /// For each variable with a user value, in order: its value under its own
    /// name, then the value filtered by each of its filters under the key of
    /// the filter. A later pair overrides an earlier one with the same key, so
    /// a default filter replaces the variable's own value.
    fn expand_filters(&self, variables: TemplateVariables, user_inputs: UserVariables) -> (r: ExpandedVariables)
        ensures
            expands_to(self.filter_applicator, variables.tokens@, user_inputs@, r.expanded_variables@),
    {
        let tokens = &variables.tokens;
        let ghost inputs = user_inputs@;
        let ghost app = self.filter_applicator;
        let mut result: StrMap<ExpandedValue> = StrMap::new();
        let ghost mut entries: Seq<(Seq<char>, Seq<char>)> = Seq::empty();
        let ghost mut outputs: Seq<Seq<Seq<char>>> = Seq::empty();
        let n = tokens.len();
        let mut i: usize = 0;
        while i < n
            invariant
                n == tokens@.len(),
                0 <= i <= n,
                inputs == user_inputs@,
                app == self.filter_applicator,
                outputs.len() == i,
                entries == expansion_entries(tokens@.take(i as int), inputs, outputs),
                result@ == pairs_to_map(entries),
                filter_outputs(app, tokens@.take(i as int), inputs, outputs),
            decreases n - i,
        {
            let v = &tokens[i];
            let ghost mut row: Seq<Seq<char>> = Seq::empty();
            proof {
                assert(tokens@.take(i + 1).drop_last() =~= tokens@.take(i as int));
                assert(tokens@.take(i + 1) =~= tokens@.take(i as int).push(*v));
            }
            match user_inputs.get(&v.variable_name) {
                Some(x) => {
                    let Ghost(r) = self.expand_variable(v, x.value.as_str(), &mut result, Ghost(entries));
                    proof {
                        entries = entries + variable_entries(*v, x@, r);
                        row = r;
                    }
                },
                None => {},
            }
            proof {
                lemma_filter_outputs_push(app, tokens@.take(i as int), inputs, outputs, *v, row);
                let before = outputs;
                outputs = outputs.push(row);
                assert(outputs.drop_last() =~= before);
                assert(outputs.last() == row);
                assert(entries == expansion_entries(tokens@.take(i + 1), inputs, outputs));
            }
            i = i + 1;
        }
        proof {
            assert(tokens@.take(n as int) =~= tokens@);
            assert(result@ == expanded_map(tokens@, inputs, outputs));
        }
        ExpandedVariables::new(result)
    }
}

impl<F: FilterApplicator> DefaultTemplateVariableExpander<F> {
    /// Adds to `result` the pairs a variable with user value `x` expands to,
    /// and gives what its filters gave.
    fn expand_variable(
        &self,
        v: &TemplateVariable,
        x: &str,
        result: &mut StrMap<ExpandedValue>,
        Ghost(entries): Ghost<Seq<(Seq<char>, Seq<char>)>>,
    ) -> (row: Ghost<Seq<Seq<char>>>)
        requires
            old(result)@ == pairs_to_map(entries),
        ensures
            row@.len() == v.filters@.len(),
            forall|j: int|
                0 <= j < v.filters@.len() ==> self.filter_applicator.applies(
                    v.filters@[j].filter,
                    x@,
                    #[trigger] row@[j],
                ),
            final(result)@ == pairs_to_map(entries + variable_entries(*v, x@, row@)),
    {
        let app = &self.filter_applicator;
        let ghost mut row: Seq<Seq<char>> = Seq::empty();
        let ghost mut cur = entries;
        let ghost start = entries;
        result.insert(v.variable_name.clone(), ExpandedValue::new(x.to_string()));
        proof {
            lemma_pairs_to_map_push(cur, (v.variable_name@, x@));
            cur = cur.push((v.variable_name@, x@));
            assert(variable_entries(*v, x@, row).take(1) =~= seq![(v.variable_name@, x@)]);
        }
        let m = v.filters.len();
        let mut j: usize = 0;
        while j < m
            invariant
                m == v.filters@.len(),
                0 <= j <= m,
                row.len() == j,
                cur == start + variable_entries(*v, x@, row).take(j + 1),
                result@ == pairs_to_map(cur),
                forall|b: int| 0 <= b < j ==> app.applies(v.filters@[b].filter, x@, #[trigger] row[b]),
            decreases m - j,
        {
            let f = &v.filters[j];
            let key = Self::filter_key(&v.variable_name, &f.name);
            let value = app.apply_filter(&f.filter, x);
            let ghost pair = (key@, value@);
            result.insert(key, ExpandedValue::new(value));
            proof {
                lemma_pairs_to_map_push(cur, pair);
                let old_row = row;
                row = row.push(value@);
                let ve_old = variable_entries(*v, x@, old_row);
                let ve = variable_entries(*v, x@, row);
                assert(ve[j + 1] == pair);
                assert(ve.take(j + 1) =~= ve_old.take(j + 1));
                assert(ve.take(j + 2) =~= ve.take(j + 1).push(pair));
                cur = cur.push(pair);
                assert(cur =~= start + ve.take(j + 2));
            }
            j = j + 1;
        }
        proof {
            let ve = variable_entries(*v, x@, row);
            assert(ve.take(m + 1) =~= ve);
        }
        Ghost(row)
    }
}

} // verus!

verus! {

/// The pairs a single variable with a user value expands to are its own.
proof fn lemma_single_variable_entries(v: TemplateVariable, inputs: Map<Seq<char>, Seq<char>>, row: Seq<Seq<char>>)
    requires
        inputs.dom().contains(v.variable_name@),
    ensures
        expansion_entries(seq![v], inputs, seq![row]) == variable_entries(v, inputs[v.variable_name@], row),
{
    let s = seq![v];
    let o = seq![row];
    assert(s.drop_last() =~= Seq::<TemplateVariable>::empty());
    assert(o.drop_last() =~= Seq::<Seq<Seq<char>>>::empty());
    assert(expansion_entries(s.drop_last(), inputs, o.drop_last()) == Seq::<(Seq<char>, Seq<char>)>::empty());
    assert(Seq::<(Seq<char>, Seq<char>)>::empty() + variable_entries(v, inputs[v.variable_name@], row)
        =~= variable_entries(v, inputs[v.variable_name@], row));
}

/// Law: a variable without filters expands to its user value under its own name alone.
pub proof fn law_unfiltered_variable_keeps_user_value(
    v: TemplateVariable,
    inputs: Map<Seq<char>, Seq<char>>,
    row: Seq<Seq<char>>,
)
    requires
        inputs.dom().contains(v.variable_name@),
        v.filters@.len() == 0,
    ensures
        expanded_map(seq![v], inputs, seq![row]) == Map::<Seq<char>, Seq<char>>::empty().insert(
            v.variable_name@,
            inputs[v.variable_name@],
        ),
{
    lemma_single_variable_entries(v, inputs, row);
    let x = inputs[v.variable_name@];
    let e = variable_entries(v, x, row);
    assert(e =~= seq![(v.variable_name@, x)]);
    assert(e.drop_last() =~= Seq::<(Seq<char>, Seq<char>)>::empty());
    assert(pairs_to_map(e.drop_last()) == Map::<Seq<char>, Seq<char>>::empty());
}

/// Law: a variable without a default filter keeps its user value under its own name.
pub proof fn law_value_kept_without_default_filter(
    v: TemplateVariable,
    inputs: Map<Seq<char>, Seq<char>>,
    row: Seq<Seq<char>>,
)
    requires
        inputs.dom().contains(v.variable_name@),
        forall|j: int| 0 <= j < v.filters@.len() ==> (#[trigger] v.filters@[j]).name@ != default_filter_name(),
    ensures
        expanded_map(seq![v], inputs, seq![row]).dom().contains(v.variable_name@),
        expanded_map(seq![v], inputs, seq![row])[v.variable_name@] == inputs[v.variable_name@],
{
    lemma_single_variable_entries(v, inputs, row);
    let x = inputs[v.variable_name@];
    let e = variable_entries(v, x, row);
    assert forall|l: int| 0 < l < e.len() implies #[trigger] e[l].0 != v.variable_name@ by {
        let f = v.filters@[l - 1];
        assert(e[l].0 == filter_key(v.variable_name@, f.name@));
        assert(filter_key(v.variable_name@, f.name@).len() > v.variable_name@.len());
    }
    lemma_pairs_to_map_last(e, v.variable_name@, 0);
}

/// Law: the last default filter of a variable replaces its user value under its own name.
pub proof fn law_default_filter_replaces_value(
    v: TemplateVariable,
    inputs: Map<Seq<char>, Seq<char>>,
    row: Seq<Seq<char>>,
    i: int,
)
    requires
        inputs.dom().contains(v.variable_name@),
        0 <= i < v.filters@.len(),
        v.filters@[i].name@ == default_filter_name(),
        forall|j: int| i < j < v.filters@.len() ==> (#[trigger] v.filters@[j]).name@ != default_filter_name(),
    ensures
        expanded_map(seq![v], inputs, seq![row]).dom().contains(v.variable_name@),
        expanded_map(seq![v], inputs, seq![row])[v.variable_name@] == row[i],
{
    lemma_single_variable_entries(v, inputs, row);
    let x = inputs[v.variable_name@];
    let e = variable_entries(v, x, row);
    assert(e[i + 1] == (filter_key(v.variable_name@, v.filters@[i].name@), row[i]));
    assert forall|l: int| i + 1 < l < e.len() implies #[trigger] e[l].0 != v.variable_name@ by {
        let f = v.filters@[l - 1];
        assert(e[l].0 == filter_key(v.variable_name@, f.name@));
        assert(filter_key(v.variable_name@, f.name@).len() > v.variable_name@.len());
    }
    lemma_pairs_to_map_last(e, v.variable_name@, i + 1);
}

/// Law: a filter other than the default one makes the filtered value
/// available under the variable's name joined with the filter's name, when
/// no later filter of the variable has the same name.
pub proof fn law_named_filter_adds_key(
    v: TemplateVariable,
    inputs: Map<Seq<char>, Seq<char>>,
    row: Seq<Seq<char>>,
    i: int,
)
    requires
        inputs.dom().contains(v.variable_name@),
        0 <= i < v.filters@.len(),
        v.filters@[i].name@ != default_filter_name(),
        forall|j: int| i < j < v.filters@.len() ==> (#[trigger] v.filters@[j]).name@ != v.filters@[i].name@,
    ensures
        expanded_map(seq![v], inputs, seq![row])[v.variable_name@ + seq!['_'] + v.filters@[i].name@]
            == row[i],
{
    lemma_single_variable_entries(v, inputs, row);
    let x = inputs[v.variable_name@];
    let e = variable_entries(v, x, row);
    let k = v.variable_name@ + seq!['_'] + v.filters@[i].name@;
    assert(e[i + 1].0 == k);
    assert forall|l: int| i + 1 < l < e.len() implies #[trigger] e[l].0 != k by {
        let f = v.filters@[l - 1];
        if f.name@ == default_filter_name() {
            assert(e[l].0 == v.variable_name@);
            assert(k.len() > v.variable_name@.len());
        } else {
            assert(e[l].0 == v.variable_name@ + seq!['_'] + f.name@);
            if e[l].0 == k {
                let n: int = v.variable_name@.len() as int + 1;
                assert(f.name@ =~= e[l].0.subrange(n, e[l].0.len() as int));
                assert(v.filters@[i].name@ =~= k.subrange(n, k.len() as int));
            }
        }
    }
    lemma_pairs_to_map_last(e, k, i + 1);
}

/// Law: variables without a user value expand to nothing.
pub proof fn law_no_inputs_no_expansion(tokens: Seq<TemplateVariable>, outputs: Seq<Seq<Seq<char>>>)
    ensures
        expanded_map(tokens, Map::empty(), outputs) == Map::<Seq<char>, Seq<char>>::empty(),
    decreases tokens.len(),
{
    if tokens.len() > 0 {
        law_no_inputs_no_expansion(tokens.drop_last(), outputs.drop_last());
    }
}

} // verus!
