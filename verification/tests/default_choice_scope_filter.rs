use zat::choice::{ChoiceScopeFilter, DefaultChoiceScopeFilter};
use zat::str_map::StrMap;
use zat::templates::{
    Choice, ExcludeChoice, ExcludeChoiceValue, FilterType, IncludeChoice, IncludeChoiceValue, Scope,
    TemplateVariable, TemplateVariables, UserChoiceValue, UserChoices, VariableFilter,
};

fn choice_value(display: &str, description: &str, value: &str) -> UserChoiceValue {
    UserChoiceValue::new(Choice::new(display, description, value))
}

fn choices_of(pairs: &[(&str, (&str, &str, &str))]) -> UserChoices {
    let mut choices = StrMap::new();
    for (key, (display, description, value)) in pairs {
        choices.insert(key.to_string(), choice_value(display, description, value));
    }
    choices
}

// is_scope_included

#[test]
fn without_choices_should_always_return_true() {
    let no_choices: UserChoices = StrMap::new();
    let scope_include_choice_value = Scope::IncludeChoiceValueScope(IncludeChoiceValue::new("choice-key", "choice-value"));
    let scope_include_choice = Scope::IncludeChoiceScope(IncludeChoice::new("choice-key"));
    let scope_exclude_choice = Scope::ExcludeChoiceScope(ExcludeChoice::new("choice-key"));
    let scope_exclude_choice_value = Scope::ExcludeChoiceValueScope(ExcludeChoiceValue::new("choice-key", "choice-value"));

    assert!(DefaultChoiceScopeFilter::is_scope_included(&no_choices, &scope_include_choice_value));
    assert!(DefaultChoiceScopeFilter::is_scope_included(&no_choices, &scope_include_choice));
    assert!(DefaultChoiceScopeFilter::is_scope_included(&no_choices, &scope_exclude_choice));
    assert!(DefaultChoiceScopeFilter::is_scope_included(&no_choices, &scope_exclude_choice_value));
}

#[test]
fn default_choice_scope_filter_with_a_matching_choice_returns_true() {
    let choices = choices_of(&[("choice-key", ("", "", "choice-value"))]);
    let scope_include_choice_value = Scope::IncludeChoiceValueScope(IncludeChoiceValue::new("choice-key", "choice-value"));
    assert!(DefaultChoiceScopeFilter::is_scope_included(&choices, &scope_include_choice_value));
}

#[test]
fn with_a_mismatched_choice_value_returns_false() {
    let choices = choices_of(&[("choice-key", ("", "", "choice-value-other"))]);
    let scope_include_choice_value = Scope::IncludeChoiceValueScope(IncludeChoiceValue::new("choice-key", "choice-value"));
    assert!(!DefaultChoiceScopeFilter::is_scope_included(&choices, &scope_include_choice_value));
}

#[test]
fn with_a_mismatched_choice_key_returns_false() {
    let choices = choices_of(&[("choice-key", ("", "", "choice-value"))]);
    let scope_include_choice_value = Scope::IncludeChoiceValueScope(IncludeChoiceValue::new("choice-key-other", "choice-value"));
    assert!(!DefaultChoiceScopeFilter::is_scope_included(&choices, &scope_include_choice_value));
}

#[test]
fn with_a_matching_choice_returns_true() {
    let choices = choices_of(&[("choice-key", ("", "", "choice-value"))]);
    let scope_include_choice = Scope::IncludeChoiceScope(IncludeChoice::new("choice-key"));
    assert!(DefaultChoiceScopeFilter::is_scope_included(&choices, &scope_include_choice));
}

#[test]
fn with_a_missing_choice_value_returns_false() {
    let choices = choices_of(&[("choice-key-other", ("", "", "choice-value"))]);
    let scope_include_choice = Scope::IncludeChoiceScope(IncludeChoice::new("choice-key"));
    assert!(!DefaultChoiceScopeFilter::is_scope_included(&choices, &scope_include_choice));
}

#[test]
fn with_a_excluded_choice_value_returns_false() {
    let choices = choices_of(&[("choice-key", ("", "", "choice-value"))]);
    let scope_exclude_choice_value = Scope::ExcludeChoiceValueScope(ExcludeChoiceValue::new("choice-key", "choice-value"));
    assert!(!DefaultChoiceScopeFilter::is_scope_included(&choices, &scope_exclude_choice_value));
}

#[test]
fn with_a_mismatched_choice_value_returns_true() {
    let choices = choices_of(&[("choice-key", ("", "", "choice-value-other"))]);
    let scope_exclude_choice_value = Scope::ExcludeChoiceValueScope(ExcludeChoiceValue::new("choice-key", "choice-value"));
    assert!(DefaultChoiceScopeFilter::is_scope_included(&choices, &scope_exclude_choice_value));
}

#[test]
fn with_a_missing_choice_key_returns_true() {
    let choices = choices_of(&[("choice-key-other", ("", "", "choice-value"))]);
    let scope_exclude_choice_value = Scope::ExcludeChoiceValueScope(ExcludeChoiceValue::new("choice-key", "choice-value"));
    assert!(DefaultChoiceScopeFilter::is_scope_included(&choices, &scope_exclude_choice_value));
}

#[test]
fn with_a_excluded_choice_returns_false() {
    let choices = choices_of(&[("choice-key", ("", "", "choice-value"))]);
    let scope_exclude_choice = Scope::ExcludeChoiceScope(ExcludeChoice::new("choice-key"));
    assert!(!DefaultChoiceScopeFilter::is_scope_included(&choices, &scope_exclude_choice));
}

#[test]
fn with_a_missing_choice_returns_true() {
    let choices = choices_of(&[("choice-key", ("", "", "choice-value-other"))]);
    let scope_exclude_choice = Scope::ExcludeChoiceScope(ExcludeChoice::new("choice-key-other"));
    assert!(DefaultChoiceScopeFilter::is_scope_included(&choices, &scope_exclude_choice));
}

// filter_scopes

fn numbered_variables() -> Vec<TemplateVariable> {
    (0..5)
        .map(|n| {
            TemplateVariable::new(
                format!("variable_{n}").as_str(),
                format!("variable_{n}-description").as_str(),
                format!("variable_{n}-prompt").as_str(),
                &[VariableFilter::new(format!("filter-{n}").as_str(), &FilterType::Camel)],
                Some(format!("my-{n}-value").as_str()),
            )
        })
        .collect()
}

fn choices_x_and_2() -> UserChoices {
    choices_of(&[
        ("choice-x", ("choice-x-display", "choice-x-desc", "choice-x-value")),
        ("choice-2", ("choice-2-display", "choice-2-desc", "choice-2-value")),
    ])
}

#[test]
fn without_choices_returns_all_excludes_and_non_scoped_variables_only() {
    let no_choices: UserChoices = StrMap::new();
    let variable_1 = TemplateVariable::with_scopes("variable_1", vec![Scope::new_include_choice("my-included-choice")]);
    let variable_2 = TemplateVariable::with_scopes(
        "variable_2",
        vec![Scope::new_include_choice_value("my-included-choice-value-key", "my-included-choice-value-value")],
    );
    let variable_3 = TemplateVariable::with_scopes("variable_3", vec![Scope::new_exclude_choice("my-excluded-choice")]);
    let variable_4 = TemplateVariable::with_scopes(
        "variable_4",
        vec![Scope::new_exclude_choice_value("my-excluded-choice-value-key", "my-excluded-choice-value-value")],
    );
    let variable_5 = TemplateVariable::new("variable_5", "variable_5-description", "variable_5-prompt", &[], Some("my-value"));
    let variable_6 = TemplateVariable::with_scopes("variable_6", vec![Scope::new_include_choice("my-other-included-choice")]);

    let tokens = vec![variable_1, variable_2, variable_3.clone(), variable_4.clone(), variable_5.clone(), variable_6];
    let mut template_variables = TemplateVariables::new(tokens);
    let expected_template_variables = TemplateVariables::new(vec![variable_3, variable_4, variable_5]);

    DefaultChoiceScopeFilter::filter_scopes(&no_choices, &mut template_variables);

    assert_eq!(expected_template_variables, template_variables)
}

#[test]
fn without_scopes_returns_all_variables() {
    let mut choices_map: UserChoices = StrMap::new();
    for _ in 0..5 {
        choices_map.insert("choice-1".to_string(), choice_value("choice-1-display", "choice-1-desc", "choice-1-value"));
    }
    let mut template_variables = TemplateVariables::new(numbered_variables());
    let expected_template_variables = template_variables.clone();

    DefaultChoiceScopeFilter::filter_scopes(&choices_map, &mut template_variables);

    assert_eq!(expected_template_variables, template_variables)
}

#[test]
fn without_scopes_or_choices_returns_all_variables() {
    let choices_map: UserChoices = StrMap::new();
    let mut template_variables = TemplateVariables::new(numbered_variables());
    let expected_template_variables = template_variables.clone();

    DefaultChoiceScopeFilter::filter_scopes(&choices_map, &mut template_variables);

    assert_eq!(expected_template_variables, template_variables)
}

#[test]
fn with_matching_scope_returns_matching_variables() {
    let mut choices_map: UserChoices = StrMap::new();
    for n in 0..5 {
        choices_map.insert(
            format!("choice-{n}"),
            choice_value(
                format!("choice-{n}-display").as_str(),
                format!("choice-{n}-desc").as_str(),
                format!("choice-{n}-value").as_str(),
            ),
        );
    }
    let tokens: Vec<TemplateVariable> = (0..5)
        .map(|n| {
            TemplateVariable::with_scopes(
                format!("variable_{n}").as_str(),
                vec![Scope::new_include_choice(format!("choice-{}", n + 2).as_str())],
            )
        })
        .collect();
    let mut template_variables = TemplateVariables::new(tokens.clone());
    let expected_template_variables =
        TemplateVariables::new(vec![tokens[0].clone(), tokens[1].clone(), tokens[2].clone()]);

    DefaultChoiceScopeFilter::filter_scopes(&choices_map, &mut template_variables);

    assert_eq!(expected_template_variables, template_variables)
}

#[test]
fn with_matching_scope_value_returns_matching_variables() {
    let choices_map = choices_x_and_2();
    let tokens: Vec<TemplateVariable> = (0..5)
        .map(|n| {
            TemplateVariable::with_scopes(
                format!("variable_{n}").as_str(),
                vec![Scope::new_include_choice_value(format!("choice-{}", n).as_str(), format!("choice-{}-value", n).as_str())],
            )
        })
        .collect();
    let mut template_variables = TemplateVariables::new(tokens.clone());
    let expected_template_variables = TemplateVariables::new(vec![tokens[2].clone()]);

    DefaultChoiceScopeFilter::filter_scopes(&choices_map, &mut template_variables);

    assert_eq!(expected_template_variables, template_variables)
}

#[test]
fn with_matching_exclude_scope_returns_all_but_excluded_variables() {
    let choices_map = choices_x_and_2();
    let tokens: Vec<TemplateVariable> = (0..5)
        .map(|n| {
            TemplateVariable::with_scopes(
                format!("variable_{n}").as_str(),
                vec![Scope::new_exclude_choice(format!("choice-{}", n).as_str())],
            )
        })
        .collect();
    let mut template_variables = TemplateVariables::new(tokens.clone());
    let expected_template_variables =
        TemplateVariables::new(tokens.into_iter().filter(|i| i.variable_name != "variable_2").collect());

    DefaultChoiceScopeFilter::filter_scopes(&choices_map, &mut template_variables);

    assert_eq!(expected_template_variables, template_variables)
}

#[test]
fn with_matching_exclude_scope_value_returns_all_but_excluded_variables() {
    let choices_map = choices_x_and_2();
    let tokens: Vec<TemplateVariable> = (0..5)
        .map(|n| {
            TemplateVariable::with_scopes(
                format!("variable_{n}").as_str(),
                vec![Scope::new_exclude_choice_value(format!("choice-{}", n).as_str(), format!("choice-{}-value", n).as_str())],
            )
        })
        .collect();
    let mut template_variables = TemplateVariables::new(tokens.clone());
    let expected_template_variables =
        TemplateVariables::new(tokens.into_iter().filter(|i| i.variable_name != "variable_2").collect());

    DefaultChoiceScopeFilter::filter_scopes(&choices_map, &mut template_variables);

    assert_eq!(expected_template_variables, template_variables)
}

#[test]
fn with_include_overrides_exclude_for_variable_scope() {
    let choices_map = choices_x_and_2();
    let tokens: Vec<TemplateVariable> = (0..5)
        .map(|n| {
            if n == 2 {
                TemplateVariable::with_scopes(
                    "variable_2",
                    vec![
                        Scope::new_exclude_choice_value("choice-2", "choice-2-value"),
                        Scope::new_include_choice_value("choice-2", "choice-2-value"),
                    ],
                )
            } else {
                TemplateVariable::with_scopes(format!("variable_{n}").as_str(), vec![])
            }
        })
        .collect();
    let mut template_variables = TemplateVariables::new(tokens.clone());
    let expected_template_variables = TemplateVariables::new(tokens);

    DefaultChoiceScopeFilter::filter_scopes(&choices_map, &mut template_variables);

    assert_eq!(expected_template_variables, template_variables)
}

#[test]
fn with_a_mix_of_scopes_and_choices() {
    let choices_map = choices_of(&[
        ("choice-x", ("choice-x-display", "choice-x-desc", "choice-x-value")),
        ("choice-2", ("choice-2-display", "choice-2-desc", "choice-2-value")),
        ("choice-y", ("choice-y-display", "choice-y-desc", "choice-y-value")),
        ("choice-z", ("choice-z-display", "choice-z-desc", "choice-z-value")),
    ]);

    let tokens = vec![
        TemplateVariable::with_scopes(
            "variable_x",
            vec![
                Scope::new_include_choice_value("choice-x", "choice-x-value"),
                Scope::new_exclude_choice_value("choice-2", "choice-2-value"),
            ],
        ),
        TemplateVariable::with_scopes(
            "variable_2",
            vec![
                Scope::new_exclude_choice_value("choice-2", "choice-2-value"),
                Scope::new_include_choice_value("choice-x", "choice-x-value"),
            ],
        ),
        TemplateVariable::with_scopes(
            "variable_w",
            vec![
                Scope::new_exclude_choice_value("choice-w", "choice-w-value-1"),
                Scope::new_include_choice_value("choice-w", "choice-w-value-2"),
            ],
        ),
        TemplateVariable::with_scopes("variable_3", vec![Scope::new_exclude_choice_value("choice-2", "choice-2-value")]),
        TemplateVariable::new("variable_4", "variable_4_description", "variable_4_prompt", &[], None),
        TemplateVariable::with_scopes("variable_y", vec![Scope::new_include_choice("choice-y")]),
        TemplateVariable::with_scopes("variable_z", vec![Scope::new_exclude_choice("choice-z")]),
        TemplateVariable::with_scopes("variable_a", vec![Scope::new_include_choice("choice-a")]),
        TemplateVariable::with_scopes("variable_b", vec![Scope::new_exclude_choice("choice-b")]),
    ];

    let mut template_variables = TemplateVariables::new(tokens.clone());
    let expected_template_variables = TemplateVariables::new(vec![
        tokens[0].clone(),
        tokens[1].clone(),
        tokens[2].clone(),
        tokens[4].clone(),
        tokens[5].clone(),
        tokens[8].clone(),
    ]);

    DefaultChoiceScopeFilter::filter_scopes(&choices_map, &mut template_variables);

    assert_eq!(expected_template_variables, template_variables)
}

// filter_scopes_by_choices

#[test]
fn no_scopes_keep_a_variable() {
    let choices = choices_x_and_2();
    assert!(DefaultChoiceScopeFilter::filter_scopes_by_choices(&choices, &[]));
}

#[test]
fn excludes_drop_a_variable_only_when_all_of_them_match() {
    let choices = choices_x_and_2();
    let one_of_two = vec![Scope::new_exclude_choice("choice-x"), Scope::new_exclude_choice("choice-q")];
    assert!(DefaultChoiceScopeFilter::filter_scopes_by_choices(&choices, &one_of_two));
    let both = vec![Scope::new_exclude_choice("choice-x"), Scope::new_exclude_choice("choice-2")];
    assert!(!DefaultChoiceScopeFilter::filter_scopes_by_choices(&choices, &both));
}

#[test]
fn filtering_twice_changes_nothing_more() {
    let choices = choices_x_and_2();
    let tokens = vec![
        TemplateVariable::with_scopes("kept", vec![Scope::new_include_choice("choice-x")]),
        TemplateVariable::with_scopes("dropped", vec![Scope::new_include_choice("choice-q")]),
    ];
    let mut once = TemplateVariables::new(tokens);
    DefaultChoiceScopeFilter::filter_scopes(&choices, &mut once);
    let mut twice = once.clone();
    DefaultChoiceScopeFilter::filter_scopes(&choices, &mut twice);
    assert_eq!(once, twice);
    assert_eq!(once.tokens.len(), 1);
    assert_eq!(once.tokens[0].variable_name, "kept");
}
