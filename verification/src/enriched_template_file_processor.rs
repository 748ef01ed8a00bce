//! Writes out the files and directories of a template, collecting every failure.

use vstd::prelude::*;
use crate::directory_creator::DirectoryCreator;
use crate::file_writer::FileWriter;
use crate::shared_models::{DestinationFile, SourceFile, StringTokenReplacer, ZatErrorX, ZatResultX};

verus! {

/// A template file with where it goes, or a directory to create.
#[derive(Debug, PartialEq)]
pub enum EnrichedTemplateFile {
    File(SourceFile, DestinationFile),
    Dir(DestinationFile),
}

/// Writes out template files and directories.
pub trait EnrichedTemplateFileProcessor {
    fn process_enriched_template_files<R: StringTokenReplacer>(
        &self,
        template_files: &[EnrichedTemplateFile],
        replacer: &R,
    ) -> ZatResultX<()>;
}

/// The errors among results, in order.
pub open spec fn errors_of(results: Seq<ZatResultX<()>>) -> Seq<ZatErrorX>
    decreases results.len(),
{
    if results.len() == 0 {
        Seq::empty()
    } else {
        let rest = errors_of(results.drop_last());
        match results.last() {
            Err(e) => rest.push(e),
            Ok(_) => rest,
        }
    }
}

/// The outcome of several steps: success when none failed, else every error in order.
pub open spec fn collected(results: Seq<ZatResultX<()>>, r: ZatResultX<()>) -> bool {
    if errors_of(results).len() == 0 {
        r is Ok
    } else {
        r matches Err(ZatErrorX::MultipleErrors(es)) && es@ == errors_of(results)
    }
}

/// Combines the results of several steps: success when none failed, else all errors in order.
pub fn collect_errors(results: Vec<ZatResultX<()>>) -> (r: ZatResultX<()>)
    ensures
        collected(results@, r),
{
    let ghost all = results@;
    let mut errors: Vec<ZatErrorX> = Vec::new();
    for result in it: results
        invariant
            it.seq() == all,
            errors@ == errors_of(all.take(it.index() as int)),
    {
        let ghost i = it.index();
        proof {
            assert(all.take(i + 1).drop_last() =~= all.take(i as int));
            assert(all.take(i + 1).last() == result);
        }
        match result {
            Err(e) => errors.push(e),
            Ok(_) => {},
        }
    }
    assert(all.take(all.len() as int) =~= all);
    if errors.len() == 0 {
        Ok(())
    } else {
        Err(ZatErrorX::MultipleErrors(errors))
    }
}

/// Whether `r` is an outcome of the step for the entry `f` with `replacer`:
/// writing a file with the writer, or creating a directory with the creator.
pub open spec fn step_outcome<W: FileWriter, D: DirectoryCreator, R: StringTokenReplacer>(
    writer: W,
    creator: D,
    replacer: R,
    f: EnrichedTemplateFile,
    r: ZatResultX<()>,
) -> bool {
    match f {
        EnrichedTemplateFile::File(source, destination) => writer.write_outcome(source, destination, replacer, r),
        EnrichedTemplateFile::Dir(destination) => creator.create_outcome(destination, replacer, r),
    }
}

/// Writes files with a file writer and creates directories with a directory creator.
pub struct DefaultEnrichedTemplateFileProcessor<'a, W: FileWriter, D: DirectoryCreator> {
    file_writer: &'a W,
    directory_creator: &'a D,
}

impl<'a, W: FileWriter, D: DirectoryCreator> DefaultEnrichedTemplateFileProcessor<'a, W, D> {
    pub fn new(file_writer: &'a W, directory_creator: &'a D) -> (r: Self)
        ensures
            r.file_writer() == file_writer,
            r.directory_creator() == directory_creator,
    {
        DefaultEnrichedTemplateFileProcessor { file_writer, directory_creator }
    }

    /// The file writer used.
    pub closed spec fn file_writer(&self) -> &'a W {
        self.file_writer
    }

    /// The directory creator used.
    pub closed spec fn directory_creator(&self) -> &'a D {
        self.directory_creator
    }
}

impl<'a, W: FileWriter, D: DirectoryCreator> EnrichedTemplateFileProcessor for DefaultEnrichedTemplateFileProcessor<'a, W, D> {
    /// Writes every file and creates every directory, in order, whatever
    /// failed before; then reports success, or every failure in order.
    fn process_enriched_template_files<R: StringTokenReplacer>(
        &self,
        template_files: &[EnrichedTemplateFile],
        replacer: &R,
    ) -> (r: ZatResultX<()>)
        ensures
            exists|results: Seq<ZatResultX<()>>|
                #![trigger collected(results, r)]
                results.len() == template_files@.len() && (forall|i: int|
                    0 <= i < results.len() ==> step_outcome(
                        *self.file_writer(),
                        *self.directory_creator(),
                        *replacer,
                        template_files@[i],
                        #[trigger] results[i],
                    )) && collected(results, r),
    {
        let mut results: Vec<ZatResultX<()>> = Vec::new();
        let n = template_files.len();
        let mut i: usize = 0;
        while i < n
            invariant
                n == template_files@.len(),
                0 <= i <= n,
                results@.len() == i,
                forall|j: int|
                    0 <= j < i ==> step_outcome(
                        *self.file_writer(),
                        *self.directory_creator(),
                        *replacer,
                        template_files@[j],
                        #[trigger] results@[j],
                    ),
            decreases n - i,
        {
            let result = match &template_files[i] {
                EnrichedTemplateFile::File(source_file, destination_file) =>
                    self.file_writer.write_source_to_destination(source_file, destination_file, replacer),
                EnrichedTemplateFile::Dir(destination_file) => self.directory_creator.create_directory(destination_file, replacer),
            };
            results.push(result);
            i = i + 1;
        }
        let ghost all = results@;
        let r = collect_errors(results);
        assert(collected(all, r));
        r
    }
}

} // verus!
