use vstd::prelude::*;
use crate::args::{ProcessRemoteTemplatesArgs, ProcessTemplatesArgs};
use crate::config::TemplateDir;
use crate::error::{ZatAction, ZatError, ZatResult};
use crate::error::error_format::opt_view;
use crate::error::zat_error::{invalid_remote_repository_url_error, unsupported_hostname_error};
use crate::text::int_decimal;

verus! {

/// Processes the templates of a remote Git repository: it is cloned into a
/// temporary directory named after it, then processed as a local one.
pub struct ProcessRemoteTemplates;

/// The parts of a URL the checkout directory is named after.
#[derive(Debug, Clone, PartialEq)]
pub struct UrlParts {
    /// The URL as `url` writes it out.
    pub serialization: String,
    pub host: Option<String>,
    pub path: String,
}

/// What `url` makes of a text: the URL written out, its host if any and its
/// path; or the text of the parse error.
pub uninterp spec fn parsed_url(input: Seq<char>) -> Result<(Seq<char>, Option<Seq<char>>, Seq<char>), Seq<char>>;

/// The view of the parts of a parsed URL, or of the parse error.
pub open spec fn url_result_view(r: Result<UrlParts, String>) -> Result<(Seq<char>, Option<Seq<char>>, Seq<char>), Seq<char>> {
    match r {
        Ok(p) => Ok((p.serialization@, opt_view(p.host), p.path@)),
        Err(e) => Err(e@),
    }
}

/// Parses `input` with `url::Url::parse`, handing out the URL as `Url::as_str`
/// writes it, `Url::host_str` and `Url::path`, or the parse error as its
/// `to_string`. The result is named by `parsed_url`.
#[verifier::external_body]
fn parse_url(input: &str) -> (r: Result<UrlParts, String>)
    ensures
        url_result_view(r) == parsed_url(input@),
{
    match url::Url::parse(input) {
        Ok(u) => Ok(
            UrlParts {
                serialization: u.as_str().to_string(),
                host: match u.host_str() {
                    Some(h) => Some(h.to_string()),
                    None => None,
                },
                path: u.path().to_string(),
            },
        ),
        Err(e) => Err(e.to_string()),
    }
}

/// A text with each `/` replaced by `_`.
pub open spec fn slashes_replaced(s: Seq<char>) -> Seq<char> {
    s.map_values(|c: char| if c == '/' { '_' } else { c })
}

/// The text with each `/` replaced by `_`.
pub fn replace_slashes(s: &str) -> (r: String)
    ensures
        r@ == slashes_replaced(s@),
{
    let n = s.unicode_len();
    let mut out = String::new();
    let mut start: usize = 0;
    let mut i: usize = 0;
    while i < n
        invariant
            n == s@.len(),
            0 <= start <= i <= n,
            out@ == slashes_replaced(s@.subrange(0, start as int)),
            forall|k: int| start <= k < i ==> #[trigger] s@[k] != '/',
        decreases n - i,
    {
        if s.get_char(i) == '/' {
            let piece = s.substring_char(start, i);
            out.append(piece);
            out.append("_");
            proof {
                reveal_strlit("_");
                assert(slashes_replaced(piece@) =~= piece@);
                assert(slashes_replaced(s@.subrange(0, i + 1)) =~= slashes_replaced(s@.subrange(0, start as int))
                    + slashes_replaced(piece@) + seq!['_']);
            }
            start = i + 1;
        }
        i = i + 1;
    }
    let piece = s.substring_char(start, n);
    out.append(piece);
    proof {
        assert(slashes_replaced(piece@) =~= piece@);
        assert(s@.subrange(0, n as int) =~= s@);
        assert(slashes_replaced(s@) =~= slashes_replaced(s@.subrange(0, start as int)) + slashes_replaced(piece@));
    }
    out
}

/// The prefix of the checkout directory of a repository: `zat-`, its host,
/// its path with `/` replaced by `_`, then `_`.
pub open spec fn checkout_prefix(host: Seq<char>, path: Seq<char>) -> Seq<char> {
    "zat-"@ + host + slashes_replaced(path) + "_"@
}

/// How the checkout directory of a repository URL is named, given what
/// parsing the URL gave: an error when the text is not a URL, or when the URL
/// has no host; otherwise the prefix of the directory's name, with the URL
/// written out.
pub open spec fn checkout_prefix_from(
    repository_url: Seq<char>,
    parsed: Result<(Seq<char>, Option<Seq<char>>, Seq<char>), Seq<char>>,
    r: ZatResult<(String, String)>,
) -> bool {
    match parsed {
        Err(e) => r matches Err(x) && invalid_remote_repository_url_error(x, e, repository_url),
        Ok((serialization, host, path)) => match host {
            None => r matches Err(x) && unsupported_hostname_error(x, serialization),
            Some(h) => r matches Ok((prefix, url)) && prefix@ == checkout_prefix(h, path) && url@ == serialization,
        },
    }
}

/// How the checkout directory of a repository URL is named, as `url` parses it.
pub open spec fn checkout_prefix_result(repository_url: Seq<char>, r: ZatResult<(String, String)>) -> bool {
    checkout_prefix_from(repository_url, parsed_url(repository_url), r)
}

/// The command that clones `url` into `directory`.
pub open spec fn git_clone_program(url: Seq<char>, directory: Seq<char>) -> Seq<char> {
    "GIT_TERMINAL_PROMPT=0 git clone "@ + url + " "@ + directory
}

/// The command that clones `url`, without its target.
pub open spec fn git_clone_program_for(url: Seq<char>) -> Seq<char> {
    "GIT_TERMINAL_PROMPT=0 git clone "@ + url
}

impl ProcessRemoteTemplates {
    /// The prefix of the name of the checkout directory of `repository_url`,
    /// with the URL written out.
    pub fn checkout_directory_prefix(repository_url: &str) -> (r: ZatResult<(String, String)>)
        ensures
            checkout_prefix_result(repository_url@, r),
    {
        ProcessRemoteTemplates::checkout_prefix_of(repository_url, parse_url(repository_url))
    }

    /// The prefix of the name of the checkout directory of `repository_url`,
    /// with the URL written out, given what parsing it gave.
    pub fn checkout_prefix_of(repository_url: &str, parsed: Result<UrlParts, String>) -> (r: ZatResult<(String, String)>)
        ensures
            checkout_prefix_from(repository_url@, url_result_view(parsed), r),
    {
        match parsed {
            Err(e) => Err(ZatError::invalid_remote_repository_url(e, repository_url)),
            Ok(parts) => match parts.host {
                None => Err(ZatError::unsupported_hostname(parts.serialization.as_str())),
                Some(host) => {
                    let mut prefix = "zat-".to_string();
                    prefix.append(host.as_str());
                    let path = replace_slashes(parts.path.as_str());
                    prefix.append(path.as_str());
                    prefix.append("_");
                    Ok((prefix, parts.serialization))
                },
            },
        }
    }

    /// The arguments of processing the checked out repository like a local
    /// one, with the target, ignores, logging and menu style asked for.
    pub fn create_process_templates_args(repository_directory: &TemplateDir, args: ProcessRemoteTemplatesArgs) -> (r: ProcessTemplatesArgs)
        ensures
            r.repository_dir@ == repository_directory@,
            r.target_dir == args.target_dir,
            r.ignores == args.ignores,
            r.verbose == args.verbose,
            r.choice_menu_style == args.choice_menu_style,
    {
        ProcessTemplatesArgs {
            repository_dir: repository_directory.path().to_string(),
            target_dir: args.target_dir,
            ignores: args.ignores,
            verbose: args.verbose,
            choice_menu_style: args.choice_menu_style,
        }
    }

    /// The command that clones `url` into `directory`.
    pub fn git_clone_program(url: &str, directory: &str) -> (r: String)
        ensures
            r@ == git_clone_program(url@, directory@),
    {
        let mut p = "GIT_TERMINAL_PROMPT=0 git clone ".to_string();
        p.append(url);
        p.append(" ");
        p.append(directory);
        p
    }

    /// The outcome of cloning `url`, given whether the clone exited
    /// successfully and with which code: success, or the error that names
    /// the code and the command to try.
    pub fn clone_outcome(success: bool, code: Option<i32>, url: &str) -> (r: ZatAction)
        ensures
            success ==> r is Ok,
            !success ==> (r matches Err(ZatError::ProcessRemoteCommandError(
                crate::error::ProcessRemoteCommandErrorReason::GitCloneStatusError(f0, f1)))
                && f0@ == "Zat could not could not clone remote repository '"@ + url@ + "' because it returned an exit code of '"@
                    + match code {
                        Some(c) => int_decimal(c as int),
                        None => "Unknown"@,
                    } + "'."@
                && f1@ == "Please ensure the following command runs successfully external to Zat: '"@ + git_clone_program_for(url@)
                    + "'. It should also not require a password as Zat does not support private repositories that are not accessible through your Git user. Please also see the clone output for possible other issues."@),
    {
        if success {
            Ok(())
        } else {
            let mut program = "GIT_TERMINAL_PROMPT=0 git clone ".to_string();
            program.append(url);
            Err(ZatError::git_clone_status_error(code, program.as_str(), url))
        }
    }
}

} // verus!
