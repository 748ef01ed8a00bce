use zat::behaviours::VariableSupplierError;
use zat::error::{ErrorFormat, GenericErrorReason, PluginErrorReason, ZatError};

const YELLOW: &str = "\u{1b}[33m";
const RESET: &str = "\u{1b}[0m";

#[test]
fn headings_are_yellow_with_a_colon() {
    assert_eq!(ZatError::heading("Exception"), format!("{YELLOW}Exception{RESET}:"));
}

#[test]
fn a_formatted_error_has_its_sections_in_order() {
    let shown = ZatError::print_formatted_error(
        "Oops",
        ErrorFormat::new(&"what".to_owned(), Some(&"why".to_owned()), Some(&"how".to_owned())),
    );
    assert_eq!(
        shown,
        format!(
            "\n\n  {YELLOW}Oops{RESET}:\n    what\n\n  {YELLOW}Exception{RESET}:\n    why\n\n  {YELLOW}Possible fix{RESET}:\n    how"
        )
    );
}

#[test]
fn a_formatted_error_leaves_out_missing_sections() {
    let shown = ZatError::print_formatted_error("Oops", ErrorFormat::new(&"what".to_owned(), None, None));
    assert_eq!(shown, format!("\n\n  {YELLOW}Oops{RESET}:\n    what"));
}

#[test]
fn a_user_config_error_is_shown_with_its_fix() {
    let e = ZatError::template_dir_does_not_exist("/r");
    let shown = e.to_string();
    assert!(shown.starts_with(&format!("\n\n  {YELLOW}")));
    assert!(shown.contains("The Zat repository directory '/r' does not exist."));
    assert!(shown.contains(&format!("{YELLOW}Possible fix{RESET}:\n    Please create the Zat repository directory '/r'")));
    assert!(!shown.contains("Exception"));
}

#[test]
fn a_generic_error_keeps_its_texts() {
    let e = ZatError::generic_error("went wrong", "because".to_owned());
    assert_eq!(
        e,
        ZatError::GenericError(GenericErrorReason {
            error: "went wrong".to_owned(),
            exception: "because".to_owned(),
            fix: String::new()
        })
    );
}

#[test]
fn plugin_status_codes_are_written_out() {
    assert_eq!(
        ZatError::plugin_return_invalid_status_code("p", Some(&-3)),
        ZatError::PluginError(PluginErrorReason::PluginReturnedInvalidExitCodeFailure(
            "p".to_owned(),
            "Plugin failed with status code -3. The plugin failed with a non-zero error code signifying an error.".to_owned(),
            "Try running the plugin manually to fix the above error.".to_owned()
        ))
    );
    match ZatError::plugin_return_invalid_status_code("p", None) {
        ZatError::PluginError(PluginErrorReason::PluginReturnedInvalidExitCodeFailure(_, e, _)) => {
            assert_eq!(e, "Plugin failed with status code unknown. The plugin failed with a non-zero error code signifying an error.")
        },
        other => panic!("unexpected: {:?}", other),
    }
}

#[test]
fn undecodable_plugin_results_show_the_error_output_when_there_is_one() {
    match ZatError::could_not_decode_plugin_result_to_json("p", "bad json".to_owned(), "{", "oops") {
        ZatError::PluginError(PluginErrorReason::CouldNotDecodePluginResultToJson(plugin, e, x, _)) => {
            assert_eq!(plugin, "p");
            assert_eq!(e, "Could not decode result from plugin. The plugin returned: '{'. The plugin returned the following error: oops");
            assert_eq!(x, "bad json");
        },
        other => panic!("unexpected: {:?}", other),
    }
    match ZatError::could_not_decode_plugin_result_to_json("p", "bad json".to_owned(), "{", "") {
        ZatError::PluginError(PluginErrorReason::CouldNotDecodePluginResultToJson(_, e, _, _)) => {
            assert_eq!(e, "Could not decode result from plugin. The plugin returned: '{'.")
        },
        other => panic!("unexpected: {:?}", other),
    }
}

#[test]
fn variable_loading_errors_as_text() {
    assert_eq!(
        VariableSupplierError::CouldNotDecodeVariableFile("x".to_owned()).to_string(),
        "Variable file could not be decoded as JSON: x"
    );
    assert_eq!(VariableSupplierError::VariableFileNotFound("f".to_owned()).to_string(), "Variable file could not be found: f");
}
