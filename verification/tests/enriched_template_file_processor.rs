use zat::directory_creator::DirectoryCreator;
use zat::enriched_template_file_processor::{
    collect_errors, DefaultEnrichedTemplateFileProcessor, EnrichedTemplateFile, EnrichedTemplateFileProcessor,
};
use zat::file_writer::FileWriter;
use zat::shared_models::{DestinationFile, SourceFile, StringTokenReplacer, ZatErrorX, ZatResultX};

struct Succeeding;

struct Failing<'a> {
    source_files: &'a [&'a SourceFile],
    destination_files: &'a [&'a DestinationFile],
}

struct NotImplemented;

impl FileWriter for Succeeding {
    fn write_source_to_destination<R: StringTokenReplacer>(
        &self,
        _source_file: &SourceFile,
        _destination_file: &DestinationFile,
        _token_replacer: &R,
    ) -> ZatResultX<()> {
        Ok(())
    }
}

impl DirectoryCreator for Succeeding {
    fn create_directory<R: StringTokenReplacer>(&self, _destination_directory: &DestinationFile, _replacer: &R) -> ZatResultX<()> {
        Ok(())
    }
}

impl StringTokenReplacer for NotImplemented {
    fn replace(&self, _input: &str) -> String {
        panic!("not implemented")
    }
}

impl<'a> Failing<'a> {
    fn files(source_files: &'a [&'a SourceFile]) -> Self {
        Self { source_files, destination_files: &[] }
    }

    fn directories(destination_files: &'a [&'a DestinationFile]) -> Self {
        Self { source_files: &[], destination_files }
    }
}

impl<'a> FileWriter for Failing<'a> {
    fn write_source_to_destination<R: StringTokenReplacer>(
        &self,
        source_file: &SourceFile,
        _destination_file: &DestinationFile,
        _token_replacer: &R,
    ) -> ZatResultX<()> {
        if self.source_files.contains(&source_file) {
            Err(ZatErrorX::WritingFileError(format!("Could not write file: {}", source_file.0)))
        } else {
            Ok(())
        }
    }
}

impl<'a> DirectoryCreator for Failing<'a> {
    fn create_directory<R: StringTokenReplacer>(&self, destination_directory: &DestinationFile, _replacer: &R) -> ZatResultX<()> {
        if self.destination_files.contains(&destination_directory) {
            Err(ZatErrorX::WritingFileError(format!("Could not write file: {}", destination_directory.0)))
        } else {
            Ok(())
        }
    }
}

#[test]
fn handles_successes() {
    let file_writer = Succeeding;
    let directory_creator = Succeeding;

    let source_file_1 = SourceFile::new("some/source/file1");
    let destination_file_1 = DestinationFile::new("some/destination/dir1");
    let source_file_2 = SourceFile::new("some/source/file2");
    let destination_file_2 = DestinationFile::new("some/destination/dir2");
    let destination_file_3 = DestinationFile::new("some/destination/dir3");

    let enriched_templates = vec![
        EnrichedTemplateFile::File(source_file_1, destination_file_1),
        EnrichedTemplateFile::Dir(destination_file_3),
        EnrichedTemplateFile::File(source_file_2, destination_file_2),
    ];

    let token_replacer = NotImplemented;

    let template_processor = DefaultEnrichedTemplateFileProcessor::new(&file_writer, &directory_creator);
    let result = template_processor.process_enriched_template_files(&enriched_templates, &token_replacer);

    assert_eq!(result, Ok(()))
}

#[test]
fn handles_failures() {
    let source_file_1 = SourceFile::new("some/source/file1");
    let destination_file_1 = DestinationFile::new("some/destination/dir1");
    let source_file_2 = SourceFile::new("some/source/file2");
    let source_file_3 = SourceFile::new("some/source/file3");
    let source_file_4 = SourceFile::new("some/source/file4");
    let destination_file_2 = DestinationFile::new("some/destination/dir2");
    let destination_file_3 = DestinationFile::new("some/destination/dir3");
    let destination_file_4 = DestinationFile::new("some/destination/dir4");

    let failing_source_files = [&source_file_2, &source_file_3];
    let file_writer = Failing::files(&failing_source_files);

    let failing_destination_files = [&destination_file_2, &destination_file_4];
    let directory_creator = Failing::directories(&failing_destination_files);

    let enriched_templates = vec![
        EnrichedTemplateFile::File(source_file_1.clone(), destination_file_1.clone()),
        EnrichedTemplateFile::Dir(destination_file_2.clone()),
        EnrichedTemplateFile::File(source_file_2.clone(), destination_file_2.clone()),
        EnrichedTemplateFile::File(source_file_3.clone(), destination_file_4.clone()),
        EnrichedTemplateFile::Dir(destination_file_3.clone()),
        EnrichedTemplateFile::Dir(destination_file_4.clone()),
        EnrichedTemplateFile::File(source_file_4.clone(), destination_file_4.clone()),
    ];

    let token_replacer = NotImplemented;

    let template_processor = DefaultEnrichedTemplateFileProcessor::new(&file_writer, &directory_creator);
    let result = template_processor.process_enriched_template_files(&enriched_templates, &token_replacer);

    let expected_errors = ZatErrorX::MultipleErrors(vec![
        ZatErrorX::WritingFileError("Could not write file: some/destination/dir2".to_owned()),
        ZatErrorX::WritingFileError("Could not write file: some/source/file2".to_owned()),
        ZatErrorX::WritingFileError("Could not write file: some/source/file3".to_owned()),
        ZatErrorX::WritingFileError("Could not write file: some/destination/dir4".to_owned()),
    ]);

    assert_eq!(result, Err(expected_errors))
}

#[test]
fn collecting_no_results_succeeds() {
    assert_eq!(collect_errors(vec![]), Ok(()));
}

#[test]
fn collecting_keeps_every_error_in_order() {
    let results = vec![
        Err(ZatErrorX::VariableReadError("a".to_owned())),
        Ok(()),
        Err(ZatErrorX::VariableDecodeError("b".to_owned())),
    ];
    assert_eq!(
        collect_errors(results),
        Err(ZatErrorX::MultipleErrors(vec![
            ZatErrorX::VariableReadError("a".to_owned()),
            ZatErrorX::VariableDecodeError("b".to_owned()),
        ]))
    );
}
