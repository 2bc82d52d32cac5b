//! What the command line asks for, and the repository it names.

use crate::chars::{contains, has, to_chars};
use crate::forge::{domain, find_repo_tuple, repo_tuple};
use vstd::prelude::*;

verus! {

/// The usage text of the command line:
/// `worker extract-file <repo> <commit> [--file <arg>] [--help] [--git-only]`.
pub const USAGE: &'static str = "
Usage:
  worker extract-file <repo> <commit> [--file <arg>] [--help] [--git-only]
  worker --help
  worker --version

Options:
  -f --file <arg>  Files to extract from a git repo [default: rabbitci.json].
  -h --help        Show this screen.
  --git-only       Disable direct github download.
  --version        Get version
";

/// The command line, taken apart.
#[derive(Clone, Debug, PartialEq, Eq)]
pub struct Args {
    /// The command `extract-file` was given.
    pub cmd_extract_file: bool,
    /// The URL of the repository.
    pub arg_repo: String,
    /// The commit: a hash or a ref.
    pub arg_commit: String,
    /// The path, inside the repository, of the file that is wanted.
    pub flag_file: String,
    /// `--help` was given.
    pub flag_help: bool,
    /// `--git-only` was given: the file is not to be downloaded directly.
    pub flag_git_only: bool,
    /// `--version` was given.
    pub flag_version: bool,
}

/// A commit of a repository.
#[derive(Clone, Debug, PartialEq, Eq)]
pub struct RepoInfo {
    /// The URL of the repository.
    pub repo_url: String,
    /// The commit: a hash or a ref.
    pub commit: String,
}

impl RepoInfo {
    /// Whether the repository is one of GitHub's: whether its URL holds
    /// `github.com`.
    pub fn is_github_repo(&self) -> (b: bool)
        ensures
            b == contains(self.repo_url@, domain()),
    {
        let url = to_chars(self.repo_url.as_str());
        let name = to_chars("github.com");
        has(&url, &name)
    }

    /// The organization and the name of a repository of GitHub's; `None` for a
    /// repository that is not one of GitHub's.
    ///
    /// A URL that holds `github.com` and has none of the accepted shapes names
    /// no repository: `requires` leaves it out, and `find_repo_tuple` tells it
    /// apart.
    pub fn extract_github_repo_tuple(&self) -> (r: Option<(String, String)>)
        requires
            contains(self.repo_url@, domain()) ==> repo_tuple(self.repo_url@) is Some,
        ensures
            match r {
                Some((org, name)) => contains(self.repo_url@, domain()) && repo_tuple(
                    self.repo_url@,
                ) == Some((org@, name@)),
                None => !contains(self.repo_url@, domain()),
            },
    {
        if !self.is_github_repo() {
            return None;
        }
        find_repo_tuple(self.repo_url.as_str())
    }
}

} // verus!
