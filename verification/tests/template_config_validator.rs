use zat::config::{Filters, IgnoredFiles, TargetDir, TemplateDir, UserConfigX};
use zat::str_map::StrMap;
use zat::template_config_validator::{
    Cli, DefaultTemplateConfigValidator, TemplateConfigValidator, TemplateVariableReview, UserInputProvider,
    UserTemplateVariableValidator, UserVariablesValidity, ValidConfig,
};
use zat::templates::{TemplateVariable, TemplateVariables, UserVariableValue, UserVariables};

struct MapInput(Vec<(String, String)>);

impl UserInputProvider for MapInput {
    fn get_user_input(&self, variables: TemplateVariables) -> UserVariables {
        let mut m = StrMap::new();
        for tv in variables.tokens {
            if let Some((_, v)) = self.0.iter().find(|(k, _)| *k == tv.variable_name) {
                m.insert(tv.variable_name.clone(), UserVariableValue::new(v.clone()));
            }
        }
        m
    }
}

struct RejectedUserTemplateVariables;

struct AcceptedUserTemplateVariables {
    user_config: UserConfigX,
    user_variables: Vec<(String, String)>,
}

fn user_template_variables(key_values: &[(&str, &str)]) -> UserVariables {
    let mut m = StrMap::new();
    for (k, v) in key_values {
        m.insert(k.to_string(), UserVariableValue::new(v.to_string()));
    }
    m
}

impl UserTemplateVariableValidator for RejectedUserTemplateVariables {
    fn review_user_template_variables(&self, _user_config: UserConfigX, _variables: UserVariables) -> TemplateVariableReview {
        TemplateVariableReview::Rejected
    }
}

impl UserTemplateVariableValidator for AcceptedUserTemplateVariables {
    fn review_user_template_variables(&self, _user_config: UserConfigX, _variables: UserVariables) -> TemplateVariableReview {
        let pairs: Vec<(&str, &str)> = self.user_variables.iter().map(|(k, v)| (k.as_str(), v.as_str())).collect();
        TemplateVariableReview::Accepted(ValidConfig::new(user_template_variables(&pairs), self.user_config.clone()))
    }
}

fn template_variable_from_name(name: &str) -> TemplateVariable {
    TemplateVariable::new(name, "", "", &[], None)
}

fn user_config() -> UserConfigX {
    UserConfigX {
        template_dir: TemplateDir::new("template_dir"),
        target_dir: TargetDir::new("target_idr"),
        filters: Filters::default(),
        ignores: IgnoredFiles::default(),
    }
}

#[test]
fn returns_valid_user_input() {
    let hash_map_input = MapInput(vec![
        ("token1".to_owned(), "value1".to_owned()),
        ("token2".to_owned(), "value2".to_owned()),
    ]);

    let template_variables = TemplateVariables::new(vec![
        template_variable_from_name("tokenA"),
        template_variable_from_name("tokenB"),
        template_variable_from_name("token1"),
        template_variable_from_name("token2"),
        template_variable_from_name("tokenC"),
    ]);

    let user_config = user_config();
    let user_template_variables = AcceptedUserTemplateVariables {
        user_config: user_config.clone(),
        user_variables: vec![("token1".to_owned(), "value1".to_owned()), ("token2".to_owned(), "value2".to_owned())],
    };

    let config_validator = DefaultTemplateConfigValidator::with_all_dependencies(hash_map_input, user_template_variables);
    let validation_result = config_validator.validate(user_config.clone(), template_variables);

    let expected_config = ValidConfig {
        user_variables: self::user_template_variables(&[("token1", "value1"), ("token2", "value2")]),
        user_config,
    };

    assert_eq!(validation_result, TemplateVariableReview::Accepted(expected_config))
}

#[test]
fn returns_rejected_input() {
    let hash_map_input = MapInput(vec![]);
    let user_variable_validator = RejectedUserTemplateVariables;
    let config_validator = DefaultTemplateConfigValidator::with_all_dependencies(hash_map_input, user_variable_validator);
    let template_variables = TemplateVariables::new(vec![]);

    let validation_result = config_validator.validate(user_config(), template_variables);

    assert_eq!(validation_result, TemplateVariableReview::Rejected)
}

#[test]
fn lines_read_supply_values_without_their_line_break() {
    let variables = TemplateVariables::new(vec![
        template_variable_from_name("a"),
        template_variable_from_name("b"),
        template_variable_from_name("c"),
        template_variable_from_name("d"),
    ]);
    let lines = vec![Some("one\n".to_owned()), Some("\n".to_owned()), None, Some("four".to_owned())];
    let values = Cli::user_inputs_from_lines(&variables, lines);
    assert_eq!(values.len(), 2);
    assert_eq!(values.get(&"a".to_owned()), Some(&UserVariableValue::new("one".to_owned())));
    assert_eq!(values.get(&"b".to_owned()), None);
    assert_eq!(values.get(&"c".to_owned()), None);
    assert_eq!(values.get(&"d".to_owned()), Some(&UserVariableValue::new("fou".to_owned())));
}

#[test]
fn only_a_y_line_confirms() {
    assert_eq!(Cli::check_user_input("y\n"), UserVariablesValidity::Valid);
    assert_eq!(Cli::check_user_input("y\r\nmore"), UserVariablesValidity::Valid);
    assert_eq!(Cli::check_user_input("y"), UserVariablesValidity::Valid);
    assert_eq!(Cli::check_user_input("yes\n"), UserVariablesValidity::Invalid);
    assert_eq!(Cli::check_user_input("Y\n"), UserVariablesValidity::Invalid);
    assert_eq!(Cli::check_user_input("\n"), UserVariablesValidity::Invalid);
}
