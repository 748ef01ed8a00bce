//! What writing a file to its destination reports when it fails.

use vstd::prelude::*;
use crate::shared_models::{DestinationFile, StringTokenReplacer, ZatErrorX};

verus! {

/// Writes a source file's content to its destination.
pub struct DefaultFileWriter;

/// Where a file is written and whether its tokens are replaced: a template
/// file, whose name ends in `.tmpl` after at least one other character, is
/// written without that extension with its tokens replaced; any other file is
/// copied as it is.
pub open spec fn template_target(path: Seq<char>) -> (Seq<char>, bool) {
    let n = path.len();
    if n > 5 && path.subrange(n - 5, n as int) == ".tmpl"@ && path[n - 6] != '/' {
        (path.subrange(0, n - 5), true)
    } else {
        (path, false)
    }
}

impl DefaultFileWriter {
    /// Where the file at `destination` is written, and whether it is a
    /// template whose tokens are replaced.
    pub fn target_of(destination: &str) -> (r: (String, bool))
        ensures
            (r.0@, r.1) == template_target(destination@),
    {
        let n = destination.unicode_len();
        proof {
            reveal_strlit(".tmpl");
        }
        if n > 5 && destination.get_char(n - 6) != '/' && destination.get_char(n - 5) == '.' && destination.get_char(n - 4)
            == 't' && destination.get_char(n - 3) == 'm' && destination.get_char(n - 2) == 'p' && destination.get_char(n - 1)
            == 'l' {
            assert(destination@.subrange(n - 5, n as int) =~= ".tmpl"@);
            (destination.substring_char(0, n - 5).to_string(), true)
        } else {
            proof {
                if n > 5 && destination@.subrange(n - 5, n as int) == ".tmpl"@ {
                    assert(destination@[n - 5] == destination@.subrange(n - 5, n as int)[0]);
                    assert(destination@[n - 4] == destination@.subrange(n - 5, n as int)[1]);
                    assert(destination@[n - 3] == destination@.subrange(n - 5, n as int)[2]);
                    assert(destination@[n - 2] == destination@.subrange(n - 5, n as int)[3]);
                    assert(destination@[n - 1] == destination@.subrange(n - 5, n as int)[4]);
                }
            }
            (destination.to_string(), false)
        }
    }

    /// Where a file for `destination` is written and whether its content has
    /// its tokens replaced: the destination's path with its tokens replaced,
    /// as `target_of` takes it.
    pub fn output_target<R: StringTokenReplacer>(destination: &DestinationFile, replacer: &R) -> (r: (String, bool))
        ensures
            exists|named: Seq<char>|
                #[trigger] replacer.replaces(destination.0@, named) && (r.0@, r.1) == template_target(named),
    {
        let named = destination.map(replacer);
        let r = DefaultFileWriter::target_of(named.as_str());
        assert(replacer.replaces(destination.0@, named@));
        r
    }

    /// The content to write for a file read as `content` and written to
    /// `destination_file`: a template's with its tokens replaced by the
    /// replacer, any other file's as it is.
    pub fn output_content<R: StringTokenReplacer>(destination_file: &DestinationFile, content: &str, replacer: &R) -> (r: String)
        ensures
            template_target(destination_file.0@).1 ==> replacer.replaces(content@, r@),
            !template_target(destination_file.0@).1 ==> r@ == content@,
    {
        let (_, is_template) = DefaultFileWriter::target_of(destination_file.0.as_str());
        if is_template {
            replacer.replace(content)
        } else {
            content.to_string()
        }
    }

    /// The error reported when the target file could not be written, for `cause`.
    pub fn write_error(target_file: &str, cause: &str) -> (r: ZatErrorX)
        ensures
            r matches ZatErrorX::WritingFileError(m) && m@ == "Could not write target file: "@ + target_file@ + "\nCause:"@ + cause@,
    {
        let mut m = "Could not write target file: ".to_string();
        m.append(target_file);
        m.append("\nCause:");
        m.append(cause);
        ZatErrorX::WritingFileError(m)
    }
}


/// Law: a path ending in `.tmpl` after a name is a template, written at the
/// path without that extension.
pub proof fn law_tmpl_files_are_templates(p: Seq<char>)
    requires
        p.len() > 0,
        p.last() != '/',
    ensures
        template_target(p + ".tmpl"@) == (p, true),
{
    reveal_strlit(".tmpl");
    let s = p + ".tmpl"@;
    let n = s.len();
    assert(s.subrange(n - 5, n as int) =~= ".tmpl"@);
    assert(s[n - 6] == p.last());
    assert(s.subrange(0, n - 5) =~= p);
}

/// Law: a path that does not end in `.tmpl` is copied to the same path, as it is.
pub proof fn law_other_files_are_copied(path: Seq<char>)
    requires
        !(path.len() >= 5 && path.subrange(path.len() - 5, path.len() as int) == ".tmpl"@),
    ensures
        template_target(path) == (path, false),
{
}

} // verus!
