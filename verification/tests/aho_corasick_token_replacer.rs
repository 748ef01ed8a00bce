use zat::str_map::StrMap;
use zat::template_variable_expander::ExpandedValue;
use zat::token_replacer::{AhoCorasickTokenReplacer, ContentWithTokens, TokenReplacer};

const PROJECT_CONTENT: &str =
      r#"
        import sublime
        import sublime_plugin
        from typing import Optional, List

        class project_PascalCommand(sublime_plugin.WindowCommand):

          def run(self) -> None:
            window = self.window

            if window:
              print("project is running") // dump out project_Pascal
            else:
              sublime.message_dialog("Could not find Window")

          def is_enabled(self) -> bool:
            return True

          def is_visible(self) -> bool:
            return True
      "#;

const EXPECTED_PROJECT_CONTENT: &str =
      r#"
        import sublime
        import sublime_plugin
        from typing import Optional, List

        class BleeBlueCommand(sublime_plugin.WindowCommand):

          def run(self) -> None:
            window = self.window

            if window:
              print("blee blue is running") // dump out BleeBlue
            else:
              sublime.message_dialog("Could not find Window")

          def is_enabled(self) -> bool:
            return True

          def is_visible(self) -> bool:
            return True
      "#;

fn user_variables() -> StrMap<ExpandedValue> {
    let mut m = StrMap::new();
    m.insert("project".to_string(), ExpandedValue::new("blee blue".to_string()));
    m.insert("project_Pascal".to_string(), ExpandedValue::new("BleeBlue".to_string()));
    m
}

#[test]
fn returns_matched_token() {
    let replacer = AhoCorasickTokenReplacer::new(user_variables());
    assert_eq!(replacer.replace_content_token(ContentWithTokens::new("project")).as_ref(), "blee blue");
}

#[test]
fn returns_matched_content() {
    let replacer = AhoCorasickTokenReplacer::new(user_variables());
    assert_eq!(replacer.replace_content_token(ContentWithTokens::new(PROJECT_CONTENT)).as_ref(), EXPECTED_PROJECT_CONTENT);
}

#[test]
fn returns_longest_matched_token_if_overlapping() {
    let replacer = AhoCorasickTokenReplacer::new(user_variables());
    assert_eq!(replacer.replace_content_token(ContentWithTokens::new("project_Pascal")).as_ref(), "BleeBlue");
}

#[test]
fn returns_token_if_match_not_found() {
    let user_variables = StrMap::new();
    let replacer = AhoCorasickTokenReplacer::new(user_variables);
    assert_eq!(replacer.replace_content_token(ContentWithTokens::new(PROJECT_CONTENT)).as_ref(), PROJECT_CONTENT);
}

#[test]
fn replaces_every_occurrence_of_a_token() {
    let mut m = StrMap::new();
    m.insert("$a$".to_string(), ExpandedValue::new("x".to_string()));
    let replacer = AhoCorasickTokenReplacer::new(m);
    assert_eq!(replacer.replace_content_token(ContentWithTokens::new("$a$-$a$-$b$")).as_ref(), "x-x-$b$");
}
