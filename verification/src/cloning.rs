//! Which repositories a set-up needs, and what is done about each.

use crate::config::Config;
use crate::invocation::{clone_invocation, clone_repository, Invocation};
use crate::repository::{Repository, RepositoryView};
use crate::services::{
    repositories_of, selected_repositories, OptionalService, OptionalServiceView,
};
use vstd::prelude::*;

verus! {

/// The repository `org/project`.
pub open spec fn repository(org: Seq<char>, project: Seq<char>) -> RepositoryView {
    RepositoryView { org, project }
}

/// Every repository that some set-up may clone.
pub open spec fn known() -> Seq<RepositoryView> {
    seq![
        repository("lichess-org"@, "lila"@),
        repository("lichess-org"@, "lila-ws"@),
        repository("lichess-org"@, "lila-db-seed"@),
        repository("lichess-org"@, "lila-fishnet"@),
        repository("lichess-org"@, "lila-engine"@),
        repository("lichess-org"@, "lila-gif"@),
        repository("lichess-org"@, "lila-push"@),
        repository("lichess-org"@, "api"@),
        repository("lichess-org"@, "chessground"@),
        repository("lichess-org"@, "pgn-viewer"@),
        repository("lichess-org"@, "scalachess"@),
        repository("lichess-org"@, "berserk"@),
        repository("cyanfish"@, "bbpPairings"@),
    ]
}

/// Every repository that some set-up may clone.
pub fn known_repositories() -> (r: Vec<Repository>)
    ensures
        r.deep_view() == known(),
{
    let mut list: Vec<Repository> = Vec::new();
    list.push(Repository::new("lichess-org", "lila"));
    list.push(Repository::new("lichess-org", "lila-ws"));
    list.push(Repository::new("lichess-org", "lila-db-seed"));
    list.push(Repository::new("lichess-org", "lila-fishnet"));
    list.push(Repository::new("lichess-org", "lila-engine"));
    list.push(Repository::new("lichess-org", "lila-gif"));
    list.push(Repository::new("lichess-org", "lila-push"));
    list.push(Repository::new("lichess-org", "api"));
    list.push(Repository::new("lichess-org", "chessground"));
    list.push(Repository::new("lichess-org", "pgn-viewer"));
    list.push(Repository::new("lichess-org", "scalachess"));
    list.push(Repository::new("lichess-org", "berserk"));
    list.push(Repository::new("cyanfish", "bbpPairings"));
    assert(list.deep_view() =~= known());
    list
}

/// The directories of the given repositories, in the same order.
pub open spec fn clone_paths(repos: Seq<RepositoryView>) -> Seq<Seq<char>> {
    Seq::new(repos.len(), |i: int| repos[i].clone_path())
}

/// The directories that are created before anything is cloned: one for
/// every known repository, chosen or not, so that none is left for the
/// container runtime to create as root.
pub fn placeholder_dirs() -> (r: Vec<String>)
    ensures
        r.deep_view() == clone_paths(known()),
{
    let repos = known_repositories();
    let mut dirs: Vec<String> = Vec::new();
    let mut i: usize = 0;
    while i < repos.len()
        invariant
            i <= repos.len(),
            repos.deep_view() == known(),
            dirs.deep_view() == clone_paths(known().take(i as int)),
        decreases repos.len() - i,
    {
        let ghost held = dirs.deep_view();
        dirs.push(repos[i].clone_path());
        proof {
            assert(repos.deep_view()[i as int] == repos@[i as int]@);
            assert(dirs.deep_view() =~= held.push(known()[i as int].clone_path()));
            assert(dirs.deep_view() =~= clone_paths(known().take(i + 1)));
        }
        i += 1;
    }
    proof {
        assert(known().take(repos.len() as int) =~= known());
    }
    dirs
}

/// The repositories that a set-up asks for, as they come: lila; the seed
/// data where the database is seeded; those of the chosen services.
pub open spec fn wanted(seeded: bool, services: Seq<OptionalServiceView>) -> Seq<RepositoryView> {
    seq![repository("lichess-org"@, "lila"@)] + (if seeded {
        seq![repository("lichess-org"@, "lila-db-seed"@)]
    } else {
        Seq::empty()
    }) + repositories_of(services)
}

/// The repositories that a set-up clones: those of [`wanted`], each once, in
/// the order in which they first occur.
pub open spec fn clone_list(seeded: bool, services: Seq<OptionalServiceView>) -> Seq<
    RepositoryView,
> {
    wanted(seeded, services).remove_duplicates(Seq::empty())
}

/// Whether the list holds `repo`.
fn holds(list: &Vec<Repository>, repo: &Repository) -> (r: bool)
    ensures
        r == list.deep_view().contains(repo@),
{
    let mut i: usize = 0;
    while i < list.len()
        invariant
            i <= list.len(),
            forall|k: int| 0 <= k < i ==> list.deep_view()[k] != repo@,
        decreases list.len() - i,
    {
        if list[i] == *repo {
            assert(list.deep_view()[i as int] == repo@);
            return true;
        }
        i += 1;
    }
    false
}

/// The repositories that a set-up with this record and these services
/// clones. The database counts as seeded where the record says so.
pub fn repositories_to_clone(config: &Config, services: &Vec<OptionalService>) -> (r: Vec<
    Repository,
>)
    ensures
        r.deep_view() == clone_list(
            config@.setup_database == Some(true),
            services.deep_view(),
        ),
        r.deep_view().no_duplicates(),
{
    let seeded = match config.setup_database {
        Some(b) => b,
        None => false,
    };
    let mut pool: Vec<Repository> = Vec::new();
    pool.push(Repository::new("lichess-org", "lila"));
    if seeded {
        pool.push(Repository::new("lichess-org", "lila-db-seed"));
    }
    let ghost head = pool.deep_view();
    let extra = selected_repositories(services);
    let mut k: usize = 0;
    while k < extra.len()
        invariant
            k <= extra.len(),
            pool.deep_view() == head + extra.deep_view().take(k as int),
        decreases extra.len() - k,
    {
        let ghost held = pool.deep_view();
        pool.push(extra[k].clone());
        proof {
            let e = extra.deep_view();
            assert(pool.deep_view() =~= held.push(e[k as int]));
            assert(e.take(k + 1) =~= e.take(k as int).push(e[k as int]));
            assert(pool.deep_view() =~= head + e.take(k + 1));
        }
        k += 1;
    }
    proof {
        assert(extra.deep_view().take(extra.len() as int) =~= extra.deep_view());
        assert(pool.deep_view() =~= wanted(seeded, services.deep_view()));
    }
    let ghost all = pool.deep_view();
    let mut out: Vec<Repository> = Vec::new();
    let mut i: usize = 0;
    proof {
        assert(all.skip(0) =~= all);
        assert(out.deep_view() =~= Seq::<RepositoryView>::empty());
    }
    while i < pool.len()
        invariant
            i <= pool.len(),
            all == pool.deep_view(),
            out.deep_view().no_duplicates(),
            all.remove_duplicates(Seq::empty()) == all.skip(i as int).remove_duplicates(
                out.deep_view(),
            ),
        decreases pool.len() - i,
    {
        let ghost held = out.deep_view();
        proof {
            assert(all.skip(i as int)[0] == pool@[i as int]@);
            assert(all.skip(i as int).skip(1) =~= all.skip(i + 1));
        }
        if !holds(&out, &pool[i]) {
            out.push(pool[i].clone());
            proof {
                assert(out.deep_view() =~= held + seq![pool@[i as int]@]);
            }
        }
        i += 1;
    }
    proof {
        assert(all.skip(pool.len() as int) =~= Seq::<RepositoryView>::empty());
    }
    out
}

/// What is found where a repository is to be cloned.
#[derive(Clone, Copy, Debug, PartialEq, Eq, Structural)]
pub enum Directory {
    /// There is no such directory.
    Missing,
    /// The directory is there and holds nothing.
    Empty,
    /// The directory holds files.
    Populated,
}

/// What is done about one repository.
#[derive(Debug)]
pub enum CloneStep {
    /// The repository is there already: nothing is run.
    AlreadyCloned,
    /// The repository is cloned by this command.
    Clone(Invocation),
}

/// What is done about `repo`, given what its directory holds: a directory
/// with files in it is left alone and no clone is run; otherwise the
/// repository is cloned into it.
pub fn clone_step(repo: &Repository, directory: Directory) -> (r: CloneStep)
    ensures
        directory == Directory::Populated ==> r is AlreadyCloned,
        directory != Directory::Populated ==> r is Clone && r->Clone_0@ == clone_invocation(
            repo@,
        ),
{
    match directory {
        Directory::Populated => CloneStep::AlreadyCloned,
        _ => CloneStep::Clone(clone_repository(repo)),
    }
}

} // verus!
