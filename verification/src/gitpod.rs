//! What is derived from a Gitpod workspace: the public address of the site
//! and the variables the workspace was opened with.

use crate::invocation::{
    branch_of_pull_request, checkout_branch, checkout_invocation, fetch_invocation,
    fetch_pull_request, pull_request_branch, pull_request_url, url_of_pull_request, Invocation,
    InvocationView,
};
use crate::text::{lemma_replaced_prefix, occurs_in, replace_all, replaced, same};
use vstd::prelude::*;
use vstd::std_specs::cmp::PartialEqSpecImpl;

verus! {

/// A variable that a workspace was opened with.
#[derive(Debug)]
pub struct GitpodEnvVar {
    pub name: String,
    pub value: String,
}

/// The mathematical value of a [`GitpodEnvVar`].
pub struct GitpodEnvVarView {
    pub name: Seq<char>,
    pub value: Seq<char>,
}

impl View for GitpodEnvVar {
    type V = GitpodEnvVarView;

    open spec fn view(&self) -> GitpodEnvVarView {
        GitpodEnvVarView { name: self.name@, value: self.value@ }
    }
}

impl DeepView for GitpodEnvVar {
    type V = GitpodEnvVarView;

    open spec fn deep_view(&self) -> GitpodEnvVarView {
        self@
    }
}

impl PartialEq for GitpodEnvVar {
    fn eq(&self, other: &Self) -> (r: bool) {
        same(self.name.as_str(), other.name.as_str()) && same(
            self.value.as_str(),
            other.value.as_str(),
        )
    }
}

impl PartialEqSpecImpl for GitpodEnvVar {
    open spec fn obeys_eq_spec() -> bool {
        true
    }

    open spec fn eq_spec(&self, other: &Self) -> bool {
        self@ == other@
    }
}

/// Whether two lists hold the same variables in the same order.
fn same_variables(a: &Vec<GitpodEnvVar>, b: &Vec<GitpodEnvVar>) -> (r: bool)
    ensures
        r == (a.deep_view() == b.deep_view()),
{
    if a.len() != b.len() {
        return false;
    }
    let mut i: usize = 0;
    while i < a.len()
        invariant
            i <= a.len(),
            a.len() == b.len(),
            a.deep_view().take(i as int) == b.deep_view().take(i as int),
        decreases a.len() - i,
    {
        if a[i] != b[i] {
            assert(a.deep_view()[i as int] != b.deep_view()[i as int]);
            return false;
        }
        proof {
            let x = a.deep_view();
            let y = b.deep_view();
            assert(x.take(i + 1) =~= x.take(i as int).push(x[i as int]));
            assert(y.take(i + 1) =~= y.take(i as int).push(y[i as int]));
        }
        i += 1;
    }
    proof {
        assert(a.deep_view().take(a.len() as int) =~= a.deep_view());
        assert(b.deep_view().take(b.len() as int) =~= b.deep_view());
    }
    true
}

/// The context a workspace was opened in.
#[derive(Debug)]
pub struct GitpodWorkspaceContext {
    /// The variables given with the workspace's address, where there are any.
    pub envvars: Option<Vec<GitpodEnvVar>>,
}

impl View for GitpodWorkspaceContext {
    type V = Option<Seq<GitpodEnvVarView>>;

    open spec fn view(&self) -> Option<Seq<GitpodEnvVarView>> {
        self.envvars.deep_view()
    }
}

impl PartialEq for GitpodWorkspaceContext {
    fn eq(&self, other: &Self) -> (r: bool) {
        match (&self.envvars, &other.envvars) {
            (Some(a), Some(b)) => same_variables(a, b),
            (None, None) => true,
            _ => false,
        }
    }
}

impl PartialEqSpecImpl for GitpodWorkspaceContext {
    open spec fn obeys_eq_spec() -> bool {
        true
    }

    open spec fn eq_spec(&self, other: &Self) -> bool {
        self@ == other@
    }
}

impl Default for GitpodWorkspaceContext {
    /// The context without variables.
    fn default() -> (r: Self)
        ensures
            r@ is None,
    {
        GitpodWorkspaceContext { envvars: None }
    }
}

/// The value of the first variable called `name`, if there is one.
pub open spec fn lookup(vars: Seq<GitpodEnvVarView>, name: Seq<char>) -> Option<Seq<char>>
    decreases vars.len(),
{
    if vars.len() == 0 {
        None
    } else if vars[0].name == name {
        Some(vars[0].value)
    } else {
        lookup(vars.skip(1), name)
    }
}

/// The value the context gives to `name`: that of the first variable of
/// that name; none where the context has no variables or none of that name.
pub open spec fn context_value(
    context: Option<Seq<GitpodEnvVarView>>,
    name: Seq<char>,
) -> Option<Seq<char>> {
    match context {
        Some(vars) => lookup(vars, name),
        None => None,
    }
}

/// The domain under which port 8080 of a workspace is served: the
/// workspace's address with `https://` replaced by `8080-`.
pub open spec fn public_domain(workspace_url: Seq<char>) -> Seq<char> {
    replaced(workspace_url, "https://"@, "8080-"@)
}

/// The address under which port 8080 of a workspace is served: the
/// workspace's address with `https://` replaced by `https://8080-`.
pub open spec fn public_url(workspace_url: Seq<char>) -> Seq<char> {
    replaced(workspace_url, "https://"@, "https://8080-"@)
}

/// For a workspace at `https://HOST`, where `HOST` holds no further
/// `https://`, the site's domain is `8080-HOST` and its address
/// `https://8080-HOST`.
pub proof fn lemma_public_address(host: Seq<char>)
    requires
        !occurs_in(host, "https://"@),
    ensures
        public_domain("https://"@ + host) == "8080-"@ + host,
        public_url("https://"@ + host) == "https://8080-"@ + host,
{
    reveal_strlit("https://");
    lemma_replaced_prefix(host, "https://"@, "8080-"@);
    lemma_replaced_prefix(host, "https://"@, "https://8080-"@);
}

/// A Gitpod workspace, as far as the set-up depends on it.
#[derive(Debug)]
pub struct Gitpod {
    /// The domain under which the site is served.
    pub domain: String,
    /// The address under which the site is served.
    pub url: String,
    /// The context the workspace was opened in.
    pub workspace_context: GitpodWorkspaceContext,
}

/// The mathematical value of a [`Gitpod`].
pub struct GitpodView {
    pub domain: Seq<char>,
    pub url: Seq<char>,
    pub workspace_context: Option<Seq<GitpodEnvVarView>>,
}

impl View for Gitpod {
    type V = GitpodView;

    open spec fn view(&self) -> GitpodView {
        GitpodView {
            domain: self.domain@,
            url: self.url@,
            workspace_context: self.workspace_context@,
        }
    }
}

impl Gitpod {
    /// The workspace with the given address and context.
    pub fn new(workspace_url: &str, workspace_context: GitpodWorkspaceContext) -> (r: Gitpod)
        ensures
            r@.domain == public_domain(workspace_url@),
            r@.url == public_url(workspace_url@),
            r@.workspace_context == workspace_context@,
    {
        Gitpod {
            domain: replace_all(workspace_url, "https://", "8080-"),
            url: replace_all(workspace_url, "https://", "https://8080-"),
            workspace_context,
        }
    }

    /// The value that the workspace's context gives to the variable `name`.
    pub fn get_context_for(&self, name: &str) -> (r: Option<&str>)
        ensures
            match r {
                Some(value) => context_value(self@.workspace_context, name@) == Some(value@),
                None => context_value(self@.workspace_context, name@) is None,
            },
    {
        match &self.workspace_context.envvars {
            None => None,
            Some(envvars) => {
                let mut i: usize = 0;
                let ghost all = envvars.deep_view();
                proof {
                    assert(all.skip(0) =~= all);
                    assert(self@.workspace_context == Some(all));
                }
                while i < envvars.len()
                    invariant
                        i <= envvars.len(),
                        all == envvars.deep_view(),
                        self@.workspace_context == Some(all),
                        lookup(all, name@) == lookup(all.skip(i as int), name@),
                    decreases envvars.len() - i,
                {
                    proof {
                        assert(all.skip(i as int)[0] == envvars@[i as int]@);
                        assert(all.skip(i as int).skip(1) =~= all.skip(i + 1));
                    }
                    if same(envvars[i].name.as_str(), name) {
                        return Some(envvars[i].value.as_str());
                    }
                    i += 1;
                }
                None
            },
        }
    }
}

/// What was found in the variable that holds the workspace's context.
#[derive(Debug)]
pub enum ContextVariable {
    /// The variable is not set.
    Missing,
    /// The variable is set, but what it holds is no context.
    Malformed,
    /// The variable holds this context.
    Parsed(GitpodWorkspaceContext),
}

/// Why a workspace could not be loaded.
#[derive(Clone, Copy, Debug, PartialEq, Eq, Structural)]
pub enum GitpodError {
    /// The variable with the workspace's address is not set.
    MissingWorkspaceUrl,
    /// The variable with the workspace's context is not set.
    MissingWorkspaceContext,
    /// The variable with the workspace's context holds no context.
    MalformedWorkspaceContext,
}

impl GitpodError {
    /// The error in words.
    pub open spec fn text(self) -> Seq<char> {
        match self {
            GitpodError::MissingWorkspaceUrl => "Missing env GITPOD_WORKSPACE_URL"@,
            GitpodError::MissingWorkspaceContext => "Missing env GITPOD_WORKSPACE_CONTEXT"@,
            GitpodError::MalformedWorkspaceContext => "Failed to parse GITPOD_WORKSPACE_CONTEXT"@,
        }
    }

    /// The error in words.
    pub fn message(&self) -> (r: String)
        ensures
            r@ == self.text(),
    {
        match self {
            GitpodError::MissingWorkspaceUrl => String::from_str(
                "Missing env GITPOD_WORKSPACE_URL",
            ),
            GitpodError::MissingWorkspaceContext => String::from_str(
                "Missing env GITPOD_WORKSPACE_CONTEXT",
            ),
            GitpodError::MalformedWorkspaceContext => String::from_str(
                "Failed to parse GITPOD_WORKSPACE_CONTEXT",
            ),
        }
    }
}

/// A pull request of lila that a workspace was opened for, and how to check
/// it out.
#[derive(Debug)]
pub struct PullRequest {
    /// The pull request's number, as the context gave it.
    pub number: String,
    /// The pull request's page.
    pub url: String,
    /// The local branch that receives the pull request's head.
    pub branch: String,
    /// The command that fetches the head into the branch.
    pub fetch: Invocation,
    /// The command that checks the branch out.
    pub checkout: Invocation,
}

/// The mathematical value of a [`PullRequest`].
pub struct PullRequestView {
    pub number: Seq<char>,
    pub url: Seq<char>,
    pub branch: Seq<char>,
    pub fetch: InvocationView,
    pub checkout: InvocationView,
}

impl View for PullRequest {
    type V = PullRequestView;

    open spec fn view(&self) -> PullRequestView {
        PullRequestView {
            number: self.number@,
            url: self.url@,
            branch: self.branch@,
            fetch: self.fetch@,
            checkout: self.checkout@,
        }
    }
}

/// Pull request `number` with its page, its branch `pr-NUMBER` and the two
/// commands that bring it in.
pub open spec fn pull_request_of(number: Seq<char>) -> PullRequestView {
    PullRequestView {
        number,
        url: pull_request_url(number),
        branch: pull_request_branch(number),
        fetch: fetch_invocation(number),
        checkout: checkout_invocation(pull_request_branch(number)),
    }
}

impl Gitpod {
    /// Whether the set-up runs in a Gitpod workspace: whether the variable
    /// with the workspace's address is set.
    pub fn is_host(workspace_url: &Option<String>) -> (r: bool)
        ensures
            r == workspace_url is Some,
    {
        workspace_url.is_some()
    }

    /// Loads the workspace from what the two variables of a workspace hold.
    /// Both have to be there, the address first; the context has to be
    /// well-formed.
    pub fn load(workspace_url: Option<String>, context: ContextVariable) -> (r: Result<
        Gitpod,
        GitpodError,
    >)
        ensures
            workspace_url is None ==> r == Err::<Gitpod, GitpodError>(
                GitpodError::MissingWorkspaceUrl,
            ),
            workspace_url is Some && context is Missing ==> r == Err::<Gitpod, GitpodError>(
                GitpodError::MissingWorkspaceContext,
            ),
            workspace_url is Some && context is Malformed ==> r == Err::<Gitpod, GitpodError>(
                GitpodError::MalformedWorkspaceContext,
            ),
            workspace_url is Some && context is Parsed ==> r is Ok && r->Ok_0@ == (GitpodView {
                domain: public_domain(workspace_url->Some_0@),
                url: public_url(workspace_url->Some_0@),
                workspace_context: context->Parsed_0@,
            }),
    {
        match workspace_url {
            None => Err(GitpodError::MissingWorkspaceUrl),
            Some(address) => match context {
                ContextVariable::Missing => Err(GitpodError::MissingWorkspaceContext),
                ContextVariable::Malformed => Err(GitpodError::MalformedWorkspaceContext),
                ContextVariable::Parsed(workspace_context) => Ok(
                    Gitpod::new(address.as_str(), workspace_context),
                ),
            },
        }
    }

    /// The pull request that the workspace was opened for: the one whose
    /// number the context gives under `LILA_PR`. Without that variable there
    /// is none, and the default branch stays checked out.
    pub fn pull_request(&self) -> (r: Option<PullRequest>)
        ensures
            match context_value(self@.workspace_context, "LILA_PR"@) {
                Some(number) => r is Some && r->Some_0@ == pull_request_of(number),
                None => r is None,
            },
    {
        match self.get_context_for("LILA_PR") {
            None => None,
            Some(number) => {
                let branch = branch_of_pull_request(number);
                Some(
                    PullRequest {
                        number: String::from_str(number),
                        url: url_of_pull_request(number),
                        fetch: fetch_pull_request(number),
                        checkout: checkout_branch(branch.as_str()),
                        branch,
                    },
                )
            },
        }
    }
}

} // verus!
