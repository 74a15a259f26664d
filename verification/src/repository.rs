//! Source repositories: how one is named, where it is fetched from and where
//! its working copy lives.

use crate::text::same;
use vstd::prelude::*;
use vstd::std_specs::cmp::PartialEqSpecImpl;

verus! {

/// A project on GitHub that the environment clones.
#[derive(Debug)]
pub struct Repository {
    /// The organisation that owns the project.
    pub org: String,
    /// The project's name within the organisation.
    pub project: String,
}

/// The mathematical value of a [`Repository`].
pub struct RepositoryView {
    pub org: Seq<char>,
    pub project: Seq<char>,
}

impl View for Repository {
    type V = RepositoryView;

    open spec fn view(&self) -> RepositoryView {
        RepositoryView { org: self.org@, project: self.project@ }
    }
}

impl DeepView for Repository {
    type V = RepositoryView;

    open spec fn deep_view(&self) -> RepositoryView {
        self@
    }
}

impl RepositoryView {
    /// `org/project`.
    pub open spec fn full_name(self) -> Seq<char> {
        self.org + "/"@ + self.project
    }

    /// `https://github.com/org/project`.
    pub open spec fn url(self) -> Seq<char> {
        "https://github.com/"@ + self.org + "/"@ + self.project
    }

    /// `repos/project`.
    pub open spec fn clone_path(self) -> Seq<char> {
        "repos/"@ + self.project
    }
}

impl Clone for Repository {
    fn clone(&self) -> (r: Self)
        ensures
            r == *self,
    {
        Repository { org: self.org.clone(), project: self.project.clone() }
    }
}

impl PartialEq for Repository {
    fn eq(&self, other: &Self) -> (r: bool) {
        same(self.org.as_str(), other.org.as_str()) && same(
            self.project.as_str(),
            other.project.as_str(),
        )
    }
}

impl PartialEqSpecImpl for Repository {
    open spec fn obeys_eq_spec() -> bool {
        true
    }

    open spec fn eq_spec(&self, other: &Self) -> bool {
        self@ == other@
    }
}

impl Eq for Repository {

}

impl Repository {
    /// The repository `org/project`.
    pub fn new(org: &str, project: &str) -> (r: Self)
        ensures
            r@.org == org@,
            r@.project == project@,
    {
        Repository { org: String::from_str(org), project: String::from_str(project) }
    }

    /// The name under which GitHub lists the repository: `org/project`.
    pub fn full_name(&self) -> (r: String)
        ensures
            r@ == self@.full_name(),
    {
        let mut name = self.org.clone();
        name.append("/");
        name.append(self.project.as_str());
        name
    }

    /// The address the repository is cloned from.
    pub fn url(&self) -> (r: String)
        ensures
            r@ == self@.url(),
    {
        let mut url = String::from_str("https://github.com/");
        url.append(self.org.as_str());
        url.append("/");
        url.append(self.project.as_str());
        url
    }

    /// The directory, relative to the working directory, that holds the
    /// repository's working copy.
    pub fn clone_path(&self) -> (r: String)
        ensures
            r@ == self@.clone_path(),
    {
        let mut path = String::from_str("repos/");
        path.append(self.project.as_str());
        path
    }
}

} // verus!
