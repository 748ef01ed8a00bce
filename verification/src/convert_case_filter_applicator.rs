//! Applies filters by converting the case of values with `convert_case`.

use vstd::prelude::*;
use convert_case::{Case, Casing};
use crate::template_variable_expander::{
    expanded_map, expands_to, filter_outputs, lemma_expansion_same_rows, FilterApplicator,
};
use crate::templates::{FilterType, TemplateVariable};

verus! {

/// The case conversions of `convert_case` that filters use.
#[derive(Debug, Clone, Copy, PartialEq, Eq)]
pub enum CaseKind {
    Camel,
    Cobol,
    Flat,
    Kebab,
    Lower,
    Pascal,
    Snake,
    Title,
    Upper,
}

/// What `convert_case` gives for `value` converted to the case `case`.
pub uninterp spec fn case_converted(value: Seq<char>, case: CaseKind) -> Seq<char>;

/// Converts `value` to a case with `convert_case`'s `Casing::to_case`, each
/// `CaseKind` standing for the `Case` of the same name. The result is named
/// by `case_converted`.
#[verifier::external_body]
fn to_case(value: &str, case: CaseKind) -> (r: String)
    ensures
        r@ == case_converted(value@, case),
{
    let case = match case {
        CaseKind::Camel => Case::Camel,
        CaseKind::Cobol => Case::Cobol,
        CaseKind::Flat => Case::Flat,
        CaseKind::Kebab => Case::Kebab,
        CaseKind::Lower => Case::Lower,
        CaseKind::Pascal => Case::Pascal,
        CaseKind::Snake => Case::Snake,
        CaseKind::Title => Case::Title,
        CaseKind::Upper => Case::Upper,
    };
    value.to_case(case)
}

/// The case a filter converts to; the no-op filter converts to none.
pub open spec fn case_of(filter_type: FilterType) -> Option<CaseKind> {
    match filter_type {
        FilterType::Camel => Some(CaseKind::Camel),
        FilterType::Cobol => Some(CaseKind::Cobol),
        FilterType::Flat => Some(CaseKind::Flat),
        FilterType::Kebab => Some(CaseKind::Kebab),
        FilterType::Lower => Some(CaseKind::Lower),
        FilterType::Noop => None,
        FilterType::Pascal => Some(CaseKind::Pascal),
        FilterType::Snake => Some(CaseKind::Snake),
        FilterType::Title => Some(CaseKind::Title),
        FilterType::Upper => Some(CaseKind::Upper),
    }
}

/// Applies a filter by converting the value to the filter's case.
pub struct ConvertCaseFilterApplicator;

/// The value converted to the filter's case; the no-op filter keeps it.
pub open spec fn case_filtered(filter_type: FilterType, value: Seq<char>) -> Seq<char> {
    match case_of(filter_type) {
        Some(case) => case_converted(value, case),
        None => value,
    }
}

impl FilterApplicator for ConvertCaseFilterApplicator {
    /// The output is the value converted to the filter's case.
    open spec fn applies(&self, filter_type: FilterType, value: Seq<char>, output: Seq<char>) -> bool {
        output == case_filtered(filter_type, value)
    }

    fn apply_filter(&self, filter_type: &FilterType, value: &str) -> (r: String) {
        match filter_type {
            FilterType::Camel => to_case(value, CaseKind::Camel),
            FilterType::Cobol => to_case(value, CaseKind::Cobol),
            FilterType::Flat => to_case(value, CaseKind::Flat),
            FilterType::Kebab => to_case(value, CaseKind::Kebab),
            FilterType::Lower => to_case(value, CaseKind::Lower),
            FilterType::Noop => value.to_string(),
            FilterType::Pascal => to_case(value, CaseKind::Pascal),
            FilterType::Snake => to_case(value, CaseKind::Snake),
            FilterType::Title => to_case(value, CaseKind::Title),
            FilterType::Upper => to_case(value, CaseKind::Upper),
        }
    }
}

/// What the filters of each variable give for its user value, filter by filter.
pub open spec fn case_rows(tokens: Seq<TemplateVariable>, inputs: Map<Seq<char>, Seq<char>>) -> Seq<Seq<Seq<char>>> {
    Seq::new(
        tokens.len(),
        |i: int|
            Seq::new(
                tokens[i].filters@.len(),
                |j: int| case_filtered(tokens[i].filters@[j].filter, inputs[tokens[i].variable_name@]),
            ),
    )
}

/// The expansion of the user values `inputs` of the variables `tokens` by
/// their case filters.
pub open spec fn case_expansion(tokens: Seq<TemplateVariable>, inputs: Map<Seq<char>, Seq<char>>) -> Map<Seq<char>, Seq<char>> {
    expanded_map(tokens, inputs, case_rows(tokens, inputs))
}

/// Law: expanding by case filters has one outcome, the case expansion.
pub proof fn law_case_expansion_is_determined(
    tokens: Seq<TemplateVariable>,
    inputs: Map<Seq<char>, Seq<char>>,
    m: Map<Seq<char>, Seq<char>>,
)
    requires
        expands_to(ConvertCaseFilterApplicator, tokens, inputs, m),
    ensures
        m == case_expansion(tokens, inputs),
{
    let app = ConvertCaseFilterApplicator;
    let outputs = choose|outputs: Seq<Seq<Seq<char>>>|
        #![trigger expanded_map(tokens, inputs, outputs)]
        filter_outputs(app, tokens, inputs, outputs) && m == expanded_map(tokens, inputs, outputs);
    let rows = case_rows(tokens, inputs);
    assert forall|i: int| 0 <= i < tokens.len() && inputs.dom().contains(tokens[i].variable_name@) implies #[trigger] outputs[i]
        == rows[i] by {
        let v = tokens[i];
        assert(crate::template_variable_expander::row_outputs(app, v, inputs, outputs[i]));
        assert forall|j: int| 0 <= j < v.filters@.len() implies outputs[i][j] == rows[i][j] by {
            assert(app.applies(v.filters@[j].filter, inputs[v.variable_name@], outputs[i][j]));
        }
        assert(outputs[i] =~= rows[i]);
    }
    lemma_expansion_same_rows(tokens, inputs, outputs, rows);
}


/// Law: each case filter converts a value to the `convert_case` case of the
/// same name, and the no-op filter keeps the value.
pub proof fn law_filters_convert_to_their_own_case(value: Seq<char>, output: Seq<char>)
    ensures
        ConvertCaseFilterApplicator.applies(FilterType::Camel, value, output) <==> output == case_converted(value, CaseKind::Camel),
        ConvertCaseFilterApplicator.applies(FilterType::Cobol, value, output) <==> output == case_converted(value, CaseKind::Cobol),
        ConvertCaseFilterApplicator.applies(FilterType::Flat, value, output) <==> output == case_converted(value, CaseKind::Flat),
        ConvertCaseFilterApplicator.applies(FilterType::Kebab, value, output) <==> output == case_converted(value, CaseKind::Kebab),
        ConvertCaseFilterApplicator.applies(FilterType::Lower, value, output) <==> output == case_converted(value, CaseKind::Lower),
        ConvertCaseFilterApplicator.applies(FilterType::Noop, value, output) <==> output == value,
        ConvertCaseFilterApplicator.applies(FilterType::Pascal, value, output) <==> output == case_converted(value, CaseKind::Pascal),
        ConvertCaseFilterApplicator.applies(FilterType::Snake, value, output) <==> output == case_converted(value, CaseKind::Snake),
        ConvertCaseFilterApplicator.applies(FilterType::Title, value, output) <==> output == case_converted(value, CaseKind::Title),
        ConvertCaseFilterApplicator.applies(FilterType::Upper, value, output) <==> output == case_converted(value, CaseKind::Upper),
{
}

} // verus!
