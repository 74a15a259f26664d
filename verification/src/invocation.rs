//! The programs that the set-up runs, described as values: which program,
//! with which arguments, in which directory. Running them is the caller's
//! part; what their outcome means is decided here.

use crate::repository::{Repository, RepositoryView};
use crate::text::{contains, occurs_in};
use vstd::prelude::*;

verus! {

/// One run of a program.
#[derive(Debug)]
pub struct Invocation {
    /// The program's name, looked up on the search path.
    pub program: String,
    /// The arguments, in order.
    pub args: Vec<String>,
    /// The directory to run in; `None` for the current one.
    pub directory: Option<String>,
}

/// The mathematical value of an [`Invocation`].
pub struct InvocationView {
    pub program: Seq<char>,
    pub args: Seq<Seq<char>>,
    pub directory: Option<Seq<char>>,
}

impl View for Invocation {
    type V = InvocationView;

    open spec fn view(&self) -> InvocationView {
        InvocationView {
            program: self.program@,
            args: self.args.deep_view(),
            directory: self.directory.deep_view(),
        }
    }
}

/// `git clone --origin upstream --depth 1 --recurse-submodules URL PATH`: a
/// shallow clone with its submodules, the remote named `upstream`.
pub open spec fn clone_invocation(repo: RepositoryView) -> InvocationView {
    InvocationView {
        program: "git"@,
        args: seq![
            "clone"@,
            "--origin"@,
            "upstream"@,
            "--depth"@,
            "1"@,
            "--recurse-submodules"@,
            repo.url(),
            repo.clone_path(),
        ],
        directory: None,
    }
}

/// The branch that holds pull request `number`: `pr-NUMBER`.
pub open spec fn pull_request_branch(number: Seq<char>) -> Seq<char> {
    "pr-"@ + number
}

/// The page of pull request `number` of lila.
pub open spec fn pull_request_url(number: Seq<char>) -> Seq<char> {
    "https://github.com/lichess-org/lila/pull/"@ + number
}

/// `git fetch upstream pull/NUMBER/head:pr-NUMBER --depth 25
/// --recurse-submodules`, run in `repos/lila`.
pub open spec fn fetch_invocation(number: Seq<char>) -> InvocationView {
    InvocationView {
        program: "git"@,
        args: seq![
            "fetch"@,
            "upstream"@,
            "pull/"@ + number + "/head:"@ + pull_request_branch(number),
            "--depth"@,
            "25"@,
            "--recurse-submodules"@,
        ],
        directory: Some("repos/lila"@),
    }
}

/// `git checkout BRANCH`, run in `repos/lila`.
pub open spec fn checkout_invocation(branch: Seq<char>) -> InvocationView {
    InvocationView {
        program: "git"@,
        args: seq!["checkout"@, branch],
        directory: Some("repos/lila"@),
    }
}

/// `git lfs version`.
pub open spec fn lfs_invocation() -> InvocationView {
    InvocationView { program: "git"@, args: seq!["lfs"@, "version"@], directory: None }
}

/// `gp ports visibility 8080:public`.
pub open spec fn publish_invocation() -> InvocationView {
    InvocationView {
        program: "gp"@,
        args: seq!["ports"@, "visibility"@, "8080:public"@],
        directory: None,
    }
}

/// The command that clones `repo` into its directory.
pub fn clone_repository(repo: &Repository) -> (r: Invocation)
    ensures
        r@ == clone_invocation(repo@),
{
    let mut args: Vec<String> = Vec::new();
    args.push(String::from_str("clone"));
    args.push(String::from_str("--origin"));
    args.push(String::from_str("upstream"));
    args.push(String::from_str("--depth"));
    args.push(String::from_str("1"));
    args.push(String::from_str("--recurse-submodules"));
    args.push(repo.url());
    args.push(repo.clone_path());
    assert(args.deep_view() =~= clone_invocation(repo@).args);
    Invocation { program: String::from_str("git"), args, directory: None }
}

/// The name of the branch that holds pull request `number`.
pub fn branch_of_pull_request(number: &str) -> (r: String)
    ensures
        r@ == pull_request_branch(number@),
{
    let mut branch = String::from_str("pr-");
    branch.append(number);
    branch
}

/// The address of the page of pull request `number`.
pub fn url_of_pull_request(number: &str) -> (r: String)
    ensures
        r@ == pull_request_url(number@),
{
    let mut url = String::from_str("https://github.com/lichess-org/lila/pull/");
    url.append(number);
    url
}

/// The command that fetches the head of pull request `number` into its
/// branch.
pub fn fetch_pull_request(number: &str) -> (r: Invocation)
    ensures
        r@ == fetch_invocation(number@),
{
    let mut refspec = String::from_str("pull/");
    refspec.append(number);
    refspec.append("/head:");
    let branch = branch_of_pull_request(number);
    refspec.append(branch.as_str());
    let mut args: Vec<String> = Vec::new();
    args.push(String::from_str("fetch"));
    args.push(String::from_str("upstream"));
    args.push(refspec);
    args.push(String::from_str("--depth"));
    args.push(String::from_str("25"));
    args.push(String::from_str("--recurse-submodules"));
    assert(args.deep_view() =~= fetch_invocation(number@).args);
    Invocation {
        program: String::from_str("git"),
        args,
        directory: Some(String::from_str("repos/lila")),
    }
}

/// The command that checks out `branch` in the lila repository.
pub fn checkout_branch(branch: &str) -> (r: Invocation)
    ensures
        r@ == checkout_invocation(branch@),
{
    let mut args: Vec<String> = Vec::new();
    args.push(String::from_str("checkout"));
    args.push(String::from_str(branch));
    assert(args.deep_view() =~= checkout_invocation(branch@).args);
    Invocation {
        program: String::from_str("git"),
        args,
        directory: Some(String::from_str("repos/lila")),
    }
}

/// The command that tells whether Git LFS is installed.
pub fn git_lfs_version() -> (r: Invocation)
    ensures
        r@ == lfs_invocation(),
{
    let mut args: Vec<String> = Vec::new();
    args.push(String::from_str("lfs"));
    args.push(String::from_str("version"));
    assert(args.deep_view() =~= lfs_invocation().args);
    Invocation { program: String::from_str("git"), args, directory: None }
}

/// The command that makes port 8080 of a Gitpod workspace public.
pub fn publish_port() -> (r: Invocation)
    ensures
        r@ == publish_invocation(),
{
    let mut args: Vec<String> = Vec::new();
    args.push(String::from_str("ports"));
    args.push(String::from_str("visibility"));
    args.push(String::from_str("8080:public"));
    assert(args.deep_view() =~= publish_invocation().args);
    Invocation { program: String::from_str("gp"), args, directory: None }
}

/// Whether Git LFS is installed, from the run of [`git_lfs_version`]:
/// `Some(true)` where the program ran and succeeded, `Some(false)` where it
/// ran and failed, `None` where it could not be started.
pub fn has_git_lfs(outcome: Option<bool>) -> (r: bool)
    ensures
        r == (outcome == Some(true)),
{
    match outcome {
        Some(success) => success,
        None => false,
    }
}

/// Whether the output of [`publish_port`] says that the port is public now:
/// it holds the words `port 8080 is now public`.
pub fn port_is_public(output: &str) -> (r: bool)
    ensures
        r == occurs_in(output@, "port 8080 is now public"@),
{
    contains(output, "port 8080 is now public")
}

} // verus!
