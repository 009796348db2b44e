//! Repository identifiers: which hosted repository a configured URL names.

use axoproject::GithubRepo;
use vstd::prelude::*;

verus! {

/// A repository on the hosting platform.
#[derive(Clone, Debug, PartialEq, Eq)]
pub struct Repository {
    pub owner: String,
    pub name: String,
}

/// Mathematical model of a [`Repository`].
pub struct RepositoryView {
    pub owner: Seq<char>,
    pub name: Seq<char>,
}

impl View for Repository {
    type V = RepositoryView;

    open spec fn view(&self) -> RepositoryView {
        RepositoryView { owner: self.owner@, name: self.name@ }
    }
}

/// What a repository URL resolves to: the repository that it names, or the
/// reason why it names none.
pub uninterp spec fn repository_of(url: Seq<char>) -> Result<RepositoryView, Seq<char>>;

/// The model of a resolved URL.
pub open spec fn resolved_view(r: Result<Repository, String>) -> Result<RepositoryView, Seq<char>> {
    match r {
        Ok(repo) => Ok(repo@),
        Err(reason) => Err(reason@),
    }
}

/// Resolves a repository URL.
///
/// Wraps `axoproject::GithubRepo::from_url`, which reads owner and name out
/// of an https or ssh URL of the hosting platform and refuses every other
/// text. The outcome depends on the URL alone; a refusal is handed on as the
/// rendered text of the error.
#[verifier::external_body]
pub(crate) fn resolve_repository(url: &str) -> (out: Result<Repository, String>)
    ensures
        resolved_view(out) == repository_of(url@),
{
    match GithubRepo::from_url(url) {
        Ok(repo) => Ok(Repository { owner: repo.owner, name: repo.name }),
        Err(e) => Err(e.to_string()),
    }
}

} // verus!
