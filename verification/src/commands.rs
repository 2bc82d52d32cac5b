//! What is asked of the outside world: the address of a file on the mirror,
//! and the arguments that `git` is run with.

use vstd::prelude::*;

verus! {

/// The mirror that files are asked of, unless another is named.
pub const MIRROR: &'static str = "cdn.rawgit.com";

/// The program that clones and checks out.
pub const GIT: &'static str = "git";

/// The address of `file`, as of `commit`, of the repository `name` of `org`, on
/// the mirror `host`: `https://<host>/<org>/<name>/<commit>/<file>`.
pub open spec fn raw_url(
    host: Seq<char>,
    org: Seq<char>,
    name: Seq<char>,
    commit: Seq<char>,
    file: Seq<char>,
) -> Seq<char> {
    "https://"@ + host + "/"@ + org + "/"@ + name + "/"@ + commit + "/"@ + file
}

/// The arguments of a shallow clone of `url` into `dir`.
pub open spec fn clone_command(url: Seq<char>, dir: Seq<char>) -> Seq<Seq<char>> {
    seq!["clone"@, url, dir, "--depth=30"@]
}

/// The arguments that check `commit` out.
pub open spec fn checkout_command(commit: Seq<char>) -> Seq<Seq<char>> {
    seq!["checkout"@, commit]
}

/// The arguments that turn a shallow clone into a full one.
pub open spec fn deepen_command() -> Seq<Seq<char>> {
    seq!["fetch"@, "--unshallow"@]
}

/// The address of `file`, as of `commit`, of the repository `name` of `org`, on
/// the mirror `host`.
pub fn raw_file_url(host: &str, org: &str, name: &str, commit: &str, file: &str) -> (url: String)
    ensures
        url@ == raw_url(host@, org@, name@, commit@, file@),
{
    let mut url = String::from_str("https://");
    url.append(host);
    url.append("/");
    url.append(org);
    url.append("/");
    url.append(name);
    url.append("/");
    url.append(commit);
    url.append("/");
    url.append(file);
    url
}

/// The arguments of a shallow clone of `url` into `dir`.
pub fn clone_args(url: &str, dir: &str) -> (args: Vec<String>)
    ensures
        args.deep_view() == clone_command(url@, dir@),
{
    let mut args: Vec<String> = Vec::new();
    args.push(String::from_str("clone"));
    args.push(String::from_str(url));
    args.push(String::from_str(dir));
    args.push(String::from_str("--depth=30"));
    assert(args.deep_view() =~= clone_command(url@, dir@));
    args
}

/// The arguments that check `commit` out.
pub fn checkout_args(commit: &str) -> (args: Vec<String>)
    ensures
        args.deep_view() == checkout_command(commit@),
{
    let mut args: Vec<String> = Vec::new();
    args.push(String::from_str("checkout"));
    args.push(String::from_str(commit));
    assert(args.deep_view() =~= checkout_command(commit@));
    args
}

/// The arguments that turn a shallow clone into a full one.
pub fn deepen_args() -> (args: Vec<String>)
    ensures
        args.deep_view() == deepen_command(),
{
    let mut args: Vec<String> = Vec::new();
    args.push(String::from_str("fetch"));
    args.push(String::from_str("--unshallow"));
    assert(args.deep_view() =~= deepen_command());
    args
}

} // verus!
