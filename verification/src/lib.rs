//! A templating system that copies a repository of template files to a target
//! directory, replacing tokens in file names and template contents.

pub mod str_map;
pub mod text;
pub mod parse;
pub mod error;
pub mod templates;
pub mod choice;
pub mod template_variable_expander;
pub mod convert_case_filter_applicator;
pub mod config;
pub mod args;
pub mod key_tokenizer;
pub mod token_replacer;
pub mod shared_models;
pub mod file_writer;
pub mod directory_creator;
pub mod default_file_writer;
pub mod default_directory_creator;
pub mod enriched_template_file_processor;
pub mod file_traverser;
pub mod file_chooser;
pub mod command;
pub mod behaviours;
pub mod template_config_validator;
pub mod template_token_provider;
pub mod default_template_file_processor;
pub mod template_listing;
