//! Choices a user makes among the options of choice variables, and how they
//! select the variables that apply.

pub mod choice_error;
pub mod choice_runner;
pub mod choice_style;
pub mod selected_choices;
pub mod default_choice_runner;
pub mod numbered_choice_style;
pub mod selection_choice_style;
pub mod choice_scope_filter;
pub mod default_choice_scope_filter;

pub use choice_error::ChoiceError;
pub use choice_runner::ChoiceRunner;
pub use choice_style::ChoiceStyle;
pub use selected_choices::SelectedChoices;
pub use default_choice_runner::DefaultChoiceRunner;
pub use numbered_choice_style::NumberedChoiceStyle;
pub use selection_choice_style::SelectionChoiceStyle;
pub use choice_scope_filter::ChoiceScopeFilter;
pub use default_choice_scope_filter::DefaultChoiceScopeFilter;
