//! The optional services of the environment: what each one adds, and the
//! list that the user chooses from.

use crate::repository::{Repository, RepositoryView};
use crate::text::same;
use vstd::prelude::*;
use vstd::std_specs::cmp::PartialEqSpecImpl;

verus! {

/// A feature that can be added to the basic site. Choosing it adds its tags
/// to the compose profiles and its repositories to those that are cloned.
#[derive(Debug)]
pub struct OptionalService {
    /// The compose profiles that start the service's containers.
    pub compose_profile: Option<Vec<String>>,
    /// The repositories that the service is built from.
    pub repositories: Option<Vec<Repository>>,
}

/// The mathematical value of an [`OptionalService`].
pub struct OptionalServiceView {
    pub compose_profile: Option<Seq<Seq<char>>>,
    pub repositories: Option<Seq<RepositoryView>>,
}

impl View for OptionalService {
    type V = OptionalServiceView;

    open spec fn view(&self) -> OptionalServiceView {
        OptionalServiceView {
            compose_profile: self.compose_profile.deep_view(),
            repositories: self.repositories.deep_view(),
        }
    }
}

impl DeepView for OptionalService {
    type V = OptionalServiceView;

    open spec fn deep_view(&self) -> OptionalServiceView {
        self@
    }
}

/// Whether two lists hold the same strings in the same order.
pub fn same_strings(a: &Vec<String>, b: &Vec<String>) -> (r: bool)
    ensures
        r == (a.deep_view() == b.deep_view()),
{
    if a.len() != b.len() {
        return false;
    }
    let mut i: usize = 0;
    while i < a.len()
        invariant
            i <= a.len(),
            a.len() == b.len(),
            a.deep_view().take(i as int) == b.deep_view().take(i as int),
        decreases a.len() - i,
    {
        if !same(a[i].as_str(), b[i].as_str()) {
            assert(a.deep_view()[i as int] != b.deep_view()[i as int]);
            return false;
        }
        proof {
            let x = a.deep_view();
            let y = b.deep_view();
            assert(x.take(i + 1) =~= x.take(i as int).push(x[i as int]));
            assert(y.take(i + 1) =~= y.take(i as int).push(y[i as int]));
        }
        i += 1;
    }
    proof {
        assert(a.deep_view().take(a.len() as int) =~= a.deep_view());
        assert(b.deep_view().take(b.len() as int) =~= b.deep_view());
    }
    true
}

/// Whether two lists hold the same repositories in the same order.
pub fn same_repositories(a: &Vec<Repository>, b: &Vec<Repository>) -> (r: bool)
    ensures
        r == (a.deep_view() == b.deep_view()),
{
    if a.len() != b.len() {
        return false;
    }
    let mut i: usize = 0;
    while i < a.len()
        invariant
            i <= a.len(),
            a.len() == b.len(),
            a.deep_view().take(i as int) == b.deep_view().take(i as int),
        decreases a.len() - i,
    {
        if a[i] != b[i] {
            assert(a.deep_view()[i as int] != b.deep_view()[i as int]);
            return false;
        }
        proof {
            let x = a.deep_view();
            let y = b.deep_view();
            assert(x.take(i + 1) =~= x.take(i as int).push(x[i as int]));
            assert(y.take(i + 1) =~= y.take(i as int).push(y[i as int]));
        }
        i += 1;
    }
    proof {
        assert(a.deep_view().take(a.len() as int) =~= a.deep_view());
        assert(b.deep_view().take(b.len() as int) =~= b.deep_view());
    }
    true
}

impl Clone for OptionalService {
    fn clone(&self) -> (r: Self)
        ensures
            r@ == self@,
    {
        let compose_profile = match &self.compose_profile {
            Some(tags) => {
                let copy = tags.clone();
                assert(copy.deep_view() =~= tags.deep_view());
                Some(copy)
            },
            None => None,
        };
        let repositories = match &self.repositories {
            Some(repos) => {
                let copy = repos.clone();
                assert(copy.deep_view() =~= repos.deep_view());
                Some(copy)
            },
            None => None,
        };
        OptionalService { compose_profile, repositories }
    }
}

impl PartialEq for OptionalService {
    fn eq(&self, other: &Self) -> (r: bool) {
        let profiles = match (&self.compose_profile, &other.compose_profile) {
            (Some(a), Some(b)) => same_strings(a, b),
            (None, None) => true,
            _ => false,
        };
        let repositories = match (&self.repositories, &other.repositories) {
            (Some(a), Some(b)) => same_repositories(a, b),
            (None, None) => true,
            _ => false,
        };
        profiles && repositories
    }
}

impl PartialEqSpecImpl for OptionalService {
    open spec fn obeys_eq_spec() -> bool {
        true
    }

    open spec fn eq_spec(&self, other: &Self) -> bool {
        self@ == other@
    }
}

impl Eq for OptionalService {

}

impl Default for OptionalService {
    /// The service that adds nothing.
    fn default() -> (r: Self)
        ensures
            r@.compose_profile is None,
            r@.repositories is None,
    {
        OptionalService { compose_profile: None, repositories: None }
    }
}

/// A service as the user is offered it: what it adds, under which name, and
/// a word of explanation.
#[derive(Debug)]
pub struct ServiceChoice {
    pub service: OptionalService,
    pub label: String,
    pub hint: String,
}

/// The mathematical value of a [`ServiceChoice`].
pub struct ServiceChoiceView {
    pub service: OptionalServiceView,
    pub label: Seq<char>,
    pub hint: Seq<char>,
}

impl View for ServiceChoice {
    type V = ServiceChoiceView;

    open spec fn view(&self) -> ServiceChoiceView {
        ServiceChoiceView { service: self.service@, label: self.label@, hint: self.hint@ }
    }
}

impl DeepView for ServiceChoice {
    type V = ServiceChoiceView;

    open spec fn deep_view(&self) -> ServiceChoiceView {
        self@
    }
}

/// The choice of a service with at most one compose profile and at most one
/// repository, the repository given as organisation and project.
pub open spec fn service_choice(
    tag: Option<Seq<char>>,
    repository: Option<(Seq<char>, Seq<char>)>,
    label: Seq<char>,
    hint: Seq<char>,
) -> ServiceChoiceView {
    ServiceChoiceView {
        service: OptionalServiceView {
            compose_profile: match tag {
                Some(t) => Some(seq![t]),
                None => None,
            },
            repositories: match repository {
                Some((org, project)) => Some(seq![RepositoryView { org, project }]),
                None => None,
            },
        },
        label,
        hint,
    }
}

/// The services that the user chooses from, in the order they are shown.
pub open spec fn catalog() -> Seq<ServiceChoiceView> {
    seq![
        service_choice(
            Some("mongo-express"@),
            None,
            "Database admin interface"@,
            "Mongo Express for viewing database structure and data"@,
        ),
        service_choice(
            Some("lila-ws-build"@),
            Some(("lichess-org"@, "lila-ws"@)),
            "Websocket source code"@,
            "Only needed if you want to make changes, otherwise a prebuilt lila-ws image will be used"@,
        ),
        service_choice(
            Some("email"@),
            None,
            "Outbound email testing"@,
            "for capturing and debugging outbound email"@,
        ),
        service_choice(
            Some("stockfish-play"@),
            Some(("lichess-org"@, "lila-fishnet"@)),
            "Stockfish Play"@,
            "for playing against the computer"@,
        ),
        service_choice(
            Some("stockfish-analysis"@),
            None,
            "Stockfish Game Analysis"@,
            "for requesting computer analysis of games"@,
        ),
        service_choice(
            Some("external-engine"@),
            Some(("lichess-org"@, "lila-engine"@)),
            "External Engine"@,
            "for connecting a local chess engine to the analysis board"@,
        ),
        service_choice(
            Some("search"@),
            None,
            "Search"@,
            "for searching games, forum posts, etc"@,
        ),
        service_choice(
            Some("gifs"@),
            Some(("lichess-org"@, "lila-gif"@)),
            "GIF + image generation"@,
            "for generating animated GIFs and screenshots of games"@,
        ),
        service_choice(
            Some("push"@),
            Some(("lichess-org"@, "lila-push"@)),
            "Push server"@,
            "for Lichess notifications"@,
        ),
        service_choice(
            Some("thumbnails"@),
            None,
            "Image uploads + thumbnails"@,
            "for blog/coach/streamer images"@,
        ),
        service_choice(
            Some("api-docs"@),
            Some(("lichess-org"@, "api"@)),
            "API docs"@,
            "standalone API documentation"@,
        ),
        service_choice(
            Some("chessground"@),
            Some(("lichess-org"@, "chessground"@)),
            "Chessground"@,
            "standalone board UI"@,
        ),
        service_choice(
            Some("pgn-viewer"@),
            Some(("lichess-org"@, "pgn-viewer"@)),
            "PGN Viewer"@,
            "standalone PGN viewer"@,
        ),
        service_choice(
            None,
            Some(("lichess-org"@, "scalachess"@)),
            "Scalachess"@,
            "standalone chess logic library"@,
        ),
        service_choice(
            None,
            Some(("lichess-org"@, "berserk"@)),
            "Berserk"@,
            "Python API client"@,
        ),
        service_choice(
            Some("monitoring"@),
            None,
            "Monitoring"@,
            "Metric collection using InfluxDB"@,
        ),
        service_choice(
            Some("swiss-pairings"@),
            Some(("cyanfish"@, "bbpPairings"@)),
            "Swiss Pairings"@,
            "bbpPairings tool"@,
        ),
    ]
}

impl ServiceChoice {
    /// The choice of a service with at most one compose profile and at most
    /// one repository.
    pub fn new(tag: Option<&str>, repository: Option<(&str, &str)>, label: &str, hint: &str) -> (r:
        ServiceChoice)
        ensures
            r@ == service_choice(
                match tag {
                    Some(t) => Some(t@),
                    None => None,
                },
                match repository {
                    Some((org, project)) => Some((org@, project@)),
                    None => None,
                },
                label@,
                hint@,
            ),
    {
        let compose_profile = match tag {
            Some(t) => {
                let mut tags: Vec<String> = Vec::new();
                tags.push(String::from_str(t));
                assert(tags.deep_view() =~= seq![t@]);
                Some(tags)
            },
            None => None,
        };
        let repositories = match repository {
            Some((org, project)) => {
                let mut repos: Vec<Repository> = Vec::new();
                repos.push(Repository::new(org, project));
                assert(repos.deep_view() =~= seq![RepositoryView { org: org@, project: project@ }]);
                Some(repos)
            },
            None => None,
        };
        ServiceChoice {
            service: OptionalService { compose_profile, repositories },
            label: String::from_str(label),
            hint: String::from_str(hint),
        }
    }
}

/// The services that the user chooses from, in the order they are shown.
pub fn optional_services() -> (r: Vec<ServiceChoice>)
    ensures
        r.deep_view() == catalog(),
{
    let mut list: Vec<ServiceChoice> = Vec::new();
    list.push(
        ServiceChoice::new(
            Some("mongo-express"),
            None,
            "Database admin interface",
            "Mongo Express for viewing database structure and data",
        ),
    );
    list.push(
        ServiceChoice::new(
            Some("lila-ws-build"),
            Some(("lichess-org", "lila-ws")),
            "Websocket source code",
            "Only needed if you want to make changes, otherwise a prebuilt lila-ws image will be used",
        ),
    );
    list.push(
        ServiceChoice::new(
            Some("email"),
            None,
            "Outbound email testing",
            "for capturing and debugging outbound email",
        ),
    );
    list.push(
        ServiceChoice::new(
            Some("stockfish-play"),
            Some(("lichess-org", "lila-fishnet")),
            "Stockfish Play",
            "for playing against the computer",
        ),
    );
    list.push(
        ServiceChoice::new(
            Some("stockfish-analysis"),
            None,
            "Stockfish Game Analysis",
            "for requesting computer analysis of games",
        ),
    );
    list.push(
        ServiceChoice::new(
            Some("external-engine"),
            Some(("lichess-org", "lila-engine")),
            "External Engine",
            "for connecting a local chess engine to the analysis board",
        ),
    );
    list.push(
        ServiceChoice::new(
            Some("search"),
            None,
            "Search",
            "for searching games, forum posts, etc",
        ),
    );
    list.push(
        ServiceChoice::new(
            Some("gifs"),
            Some(("lichess-org", "lila-gif")),
            "GIF + image generation",
            "for generating animated GIFs and screenshots of games",
        ),
    );
    list.push(
        ServiceChoice::new(
            Some("push"),
            Some(("lichess-org", "lila-push")),
            "Push server",
            "for Lichess notifications",
        ),
    );
    list.push(
        ServiceChoice::new(
            Some("thumbnails"),
            None,
            "Image uploads + thumbnails",
            "for blog/coach/streamer images",
        ),
    );
    list.push(
        ServiceChoice::new(
            Some("api-docs"),
            Some(("lichess-org", "api")),
            "API docs",
            "standalone API documentation",
        ),
    );
    list.push(
        ServiceChoice::new(
            Some("chessground"),
            Some(("lichess-org", "chessground")),
            "Chessground",
            "standalone board UI",
        ),
    );
    list.push(
        ServiceChoice::new(
            Some("pgn-viewer"),
            Some(("lichess-org", "pgn-viewer")),
            "PGN Viewer",
            "standalone PGN viewer",
        ),
    );
    list.push(
        ServiceChoice::new(
            None,
            Some(("lichess-org", "scalachess")),
            "Scalachess",
            "standalone chess logic library",
        ),
    );
    list.push(
        ServiceChoice::new(
            None,
            Some(("lichess-org", "berserk")),
            "Berserk",
            "Python API client",
        ),
    );
    list.push(
        ServiceChoice::new(
            Some("monitoring"),
            None,
            "Monitoring",
            "Metric collection using InfluxDB",
        ),
    );
    list.push(
        ServiceChoice::new(
            Some("swiss-pairings"),
            Some(("cyanfish", "bbpPairings")),
            "Swiss Pairings",
            "bbpPairings tool",
        ),
    );
    assert(list.deep_view() =~= catalog());
    list
}

/// Whether one of the services consists of the compose profile `tag` alone.
pub open spec fn offers_profile(services: Seq<OptionalServiceView>, tag: Seq<char>) -> bool {
    exists|i: int|
        0 <= i < services.len() && (#[trigger] services[i]).compose_profile == Some(seq![tag])
}

/// The compose profiles of the services, in the services' order.
pub open spec fn profiles_of(services: Seq<OptionalServiceView>) -> Seq<Seq<char>>
    decreases services.len(),
{
    if services.len() == 0 {
        Seq::empty()
    } else {
        profiles_of(services.drop_last()) + match services.last().compose_profile {
            Some(tags) => tags,
            None => Seq::empty(),
        }
    }
}

/// The repositories of the services, in the services' order.
pub open spec fn repositories_of(services: Seq<OptionalServiceView>) -> Seq<RepositoryView>
    decreases services.len(),
{
    if services.len() == 0 {
        Seq::empty()
    } else {
        repositories_of(services.drop_last()) + match services.last().repositories {
            Some(repos) => repos,
            None => Seq::empty(),
        }
    }
}

/// Whether one of the services consists of the compose profile `tag` alone.
pub fn has_profile(services: &Vec<OptionalService>, tag: &str) -> (r: bool)
    ensures
        r == offers_profile(services.deep_view(), tag@),
{
    let mut i: usize = 0;
    while i < services.len()
        invariant
            i <= services.len(),
            forall|k: int|
                0 <= k < i ==> (#[trigger] services.deep_view()[k]).compose_profile != Some(
                    seq![tag@],
                ),
        decreases services.len() - i,
    {
        let found = match &services[i].compose_profile {
            Some(tags) => {
                let hit = tags.len() == 1 && same(tags[0].as_str(), tag);
                proof {
                    if hit {
                        assert(tags.deep_view() =~= seq![tag@]);
                    } else if tags.len() == 1 {
                        assert(tags.deep_view()[0] != seq![tag@][0]);
                    } else {
                        assert(tags.deep_view().len() != seq![tag@].len());
                    }
                }
                hit
            },
            None => false,
        };
        if found {
            assert(services.deep_view()[i as int].compose_profile == Some(seq![tag@]));
            return true;
        }
        i += 1;
    }
    false
}

/// The compose profiles of the chosen services, in the services' order.
pub fn selected_profiles(services: &Vec<OptionalService>) -> (r: Vec<String>)
    ensures
        r.deep_view() == profiles_of(services.deep_view()),
{
    let mut out: Vec<String> = Vec::new();
    let mut i: usize = 0;
    while i < services.len()
        invariant
            i <= services.len(),
            out.deep_view() == profiles_of(services.deep_view().take(i as int)),
        decreases services.len() - i,
    {
        let ghost before = out.deep_view();
        proof {
            let all = services.deep_view();
            assert(all.take(i + 1).drop_last() =~= all.take(i as int));
            assert(all.take(i + 1).last() == services@[i as int]@);
        }
        match &services[i].compose_profile {
            Some(tags) => {
                let mut j: usize = 0;
                while j < tags.len()
                    invariant
                        j <= tags.len(),
                        out.deep_view() == before + tags.deep_view().take(j as int),
                    decreases tags.len() - j,
                {
                    let ghost held = out.deep_view();
                    out.push(tags[j].clone());
                    proof {
                        let t = tags.deep_view();
                        assert(out.deep_view() =~= held.push(t[j as int]));
                        assert(t.take(j + 1) =~= t.take(j as int).push(t[j as int]));
                        assert(out.deep_view() =~= before + t.take(j + 1));
                    }
                    j += 1;
                }
                proof {
                    assert(tags.deep_view().take(tags.len() as int) =~= tags.deep_view());
                }
            },
            None => {
                assert(out.deep_view() =~= before + Seq::<Seq<char>>::empty());
            },
        }
        i += 1;
    }
    proof {
        assert(services.deep_view().take(services.len() as int) =~= services.deep_view());
    }
    out
}

/// The repositories of the chosen services, in the services' order.
pub fn selected_repositories(services: &Vec<OptionalService>) -> (r: Vec<Repository>)
    ensures
        r.deep_view() == repositories_of(services.deep_view()),
{
    let mut out: Vec<Repository> = Vec::new();
    let mut i: usize = 0;
    while i < services.len()
        invariant
            i <= services.len(),
            out.deep_view() == repositories_of(services.deep_view().take(i as int)),
        decreases services.len() - i,
    {
        let ghost before = out.deep_view();
        proof {
            let all = services.deep_view();
            assert(all.take(i + 1).drop_last() =~= all.take(i as int));
            assert(all.take(i + 1).last() == services@[i as int]@);
        }
        match &services[i].repositories {
            Some(repos) => {
                let mut j: usize = 0;
                while j < repos.len()
                    invariant
                        j <= repos.len(),
                        out.deep_view() == before + repos.deep_view().take(j as int),
                    decreases repos.len() - j,
                {
                    let ghost held = out.deep_view();
                    out.push(repos[j].clone());
                    proof {
                        let t = repos.deep_view();
                        assert(out.deep_view() =~= held.push(t[j as int]));
                        assert(t.take(j + 1) =~= t.take(j as int).push(t[j as int]));
                        assert(out.deep_view() =~= before + t.take(j + 1));
                    }
                    j += 1;
                }
                proof {
                    assert(repos.deep_view().take(repos.len() as int) =~= repos.deep_view());
                }
            },
            None => {
                assert(out.deep_view() =~= before + Seq::<RepositoryView>::empty());
            },
        }
        i += 1;
    }
    proof {
        assert(services.deep_view().take(services.len() as int) =~= services.deep_view());
    }
    out
}

} // verus!
