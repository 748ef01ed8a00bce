use zat::config::{TargetDir, TemplateDir};
use zat::file_traverser::{FileTraversalConfig, FileTraverser, Ignores, TemplateFile, VecFileTraverser};

#[test]
fn should_handle_empty_file_lists_and_ignores() {
    let template_dir = TemplateDir::new("blah");
    let target_dir = TargetDir::new("blee");
    let ignores = Ignores::default();
    let user_config = FileTraversalConfig { template_dir, target_dir, ignores };

    let file_traverser = VecFileTraverser::new(vec![]);
    let files_to_process = file_traverser.traverse_files(&user_config);

    assert!(files_to_process.is_empty(), "files_to_process should be empty")
}

#[test]
fn should_handle_empty_ignores() {
    let template_dir = TemplateDir::new("blah");
    let target_dir = TargetDir::new("blee");
    let ignores = Ignores::default();
    let user_config = FileTraversalConfig { template_dir, target_dir, ignores };

    let valid_files = vec![TemplateFile::File("abc.txt".to_owned()), TemplateFile::File("two.json".to_owned())];
    let file_traverser = VecFileTraverser::new(valid_files.clone());
    let files_to_process = file_traverser.traverse_files(&user_config);

    assert_eq!(files_to_process.len(), valid_files.len(), "files_to_process should be the same as valid_files")
}

#[test]
fn should_respect_ignores() {
    let template_dir = TemplateDir::new("blah");
    let target_dir = TargetDir::new("blee");
    let files = vec!["two.json".to_owned(), "three.json".to_owned()];
    let directories = vec!["data/outputs".to_owned()];
    let ignores = Ignores { files, directories };
    let user_config = FileTraversalConfig { template_dir, target_dir, ignores };

    let input_files = vec![
        TemplateFile::File("plugin.py".to_owned()),
        TemplateFile::Dir("data/inputs".to_owned()),
        TemplateFile::Dir("data/outputs".to_owned()),
        TemplateFile::File("two.json".to_owned()),
        TemplateFile::File("main.py".to_owned()),
        TemplateFile::File("three.json".to_owned()),
        TemplateFile::Symlink("schema".to_owned()),
    ];

    let valid_files = vec![
        TemplateFile::File("plugin.py".to_owned()),
        TemplateFile::Dir("data/inputs".to_owned()),
        TemplateFile::File("main.py".to_owned()),
        TemplateFile::Symlink("schema".to_owned()),
    ];

    let file_traverser = VecFileTraverser::new(input_files);
    let files_to_process = file_traverser.traverse_files(&user_config);

    assert_eq!(files_to_process, valid_files, "files_to_process should be the same as valid_files")
}

#[test]
fn a_name_ignored_as_a_file_is_kept_as_a_directory() {
    let ignores = Ignores { files: vec!["data".to_owned()], directories: vec![] };
    let user_config = FileTraversalConfig { template_dir: TemplateDir::new("blah"), target_dir: TargetDir::new("blee"), ignores };
    let file_traverser = VecFileTraverser::new(vec![
        TemplateFile::File("data".to_owned()),
        TemplateFile::Dir("data".to_owned()),
        TemplateFile::Symlink("data".to_owned()),
    ]);
    let files_to_process = file_traverser.traverse_files(&user_config);
    assert_eq!(files_to_process, vec![TemplateFile::Dir("data".to_owned()), TemplateFile::Symlink("data".to_owned())]);
}
