use lila_docker::cloning::{
    clone_step, known_repositories, placeholder_dirs, repositories_to_clone, CloneStep, Directory,
};
use lila_docker::config::Config;
use lila_docker::invocation::{
    checkout_branch, clone_repository, fetch_pull_request, git_lfs_version, has_git_lfs,
    publish_port,
};
use lila_docker::repository::Repository;
use lila_docker::services::OptionalService;

fn service(tags: Option<&[&str]>, repos: Option<&[(&str, &str)]>) -> OptionalService {
    OptionalService {
        compose_profile: tags.map(|t| t.iter().map(|s| s.to_string()).collect()),
        repositories: repos.map(|r| r.iter().map(|(o, p)| Repository::new(o, p)).collect()),
    }
}

#[test]
fn populated_directory_is_not_cloned_again() {
    for repo in known_repositories() {
        assert!(matches!(
            clone_step(&repo, Directory::Populated),
            CloneStep::AlreadyCloned
        ));
    }
}

#[test]
fn empty_or_missing_directory_is_cloned() {
    let repo = Repository::new("lichess-org", "lila");
    for directory in [Directory::Empty, Directory::Missing] {
        match clone_step(&repo, directory) {
            CloneStep::Clone(run) => {
                assert_eq!(run.program, "git");
                assert_eq!(
                    run.args,
                    vec![
                        "clone",
                        "--origin",
                        "upstream",
                        "--depth",
                        "1",
                        "--recurse-submodules",
                        "https://github.com/lichess-org/lila",
                        "repos/lila",
                    ]
                );
                assert_eq!(run.directory, None);
            }
            CloneStep::AlreadyCloned => panic!("an empty directory must be cloned into"),
        }
    }
}

#[test]
fn clone_command_of_a_repository() {
    let run = clone_repository(&Repository::new("cyanfish", "bbpPairings"));
    assert_eq!(run.args[6], "https://github.com/cyanfish/bbpPairings");
    assert_eq!(run.args[7], "repos/bbpPairings");
    assert_eq!(run.args.len(), 8);
}

#[test]
fn known_repositories_and_their_directories() {
    let names: Vec<String> = known_repositories().iter().map(|r| r.full_name()).collect();
    assert_eq!(
        names,
        vec![
            "lichess-org/lila",
            "lichess-org/lila-ws",
            "lichess-org/lila-db-seed",
            "lichess-org/lila-fishnet",
            "lichess-org/lila-engine",
            "lichess-org/lila-gif",
            "lichess-org/lila-push",
            "lichess-org/api",
            "lichess-org/chessground",
            "lichess-org/pgn-viewer",
            "lichess-org/scalachess",
            "lichess-org/berserk",
            "cyanfish/bbpPairings",
        ]
    );
    assert_eq!(
        placeholder_dirs(),
        vec![
            "repos/lila",
            "repos/lila-ws",
            "repos/lila-db-seed",
            "repos/lila-fishnet",
            "repos/lila-engine",
            "repos/lila-gif",
            "repos/lila-push",
            "repos/api",
            "repos/chessground",
            "repos/pgn-viewer",
            "repos/scalachess",
            "repos/berserk",
            "repos/bbpPairings",
        ]
    );
}

#[test]
fn lila_alone_without_seeding() {
    let config = Config::default();
    let repos = repositories_to_clone(&config, &vec![]);
    assert_eq!(repos, vec![Repository::new("lichess-org", "lila")]);
    let unseeded = Config { setup_database: Some(false), ..Config::default() };
    assert_eq!(
        repositories_to_clone(&unseeded, &vec![]),
        vec![Repository::new("lichess-org", "lila")]
    );
}

#[test]
fn seed_data_and_service_repositories_follow() {
    let config = Config { setup_database: Some(true), ..Config::default() };
    let services = vec![
        service(Some(&["lila-ws-build"]), Some(&[("lichess-org", "lila-ws")])),
        service(Some(&["email"]), None),
        service(None, Some(&[("lichess-org", "berserk")])),
    ];
    assert_eq!(
        repositories_to_clone(&config, &services),
        vec![
            Repository::new("lichess-org", "lila"),
            Repository::new("lichess-org", "lila-db-seed"),
            Repository::new("lichess-org", "lila-ws"),
            Repository::new("lichess-org", "berserk"),
        ]
    );
}

#[test]
fn repeated_repositories_are_cloned_once() {
    let config = Config { setup_database: Some(true), ..Config::default() };
    let services = vec![
        service(None, Some(&[("lichess-org", "api"), ("lichess-org", "lila")])),
        service(None, Some(&[("lichess-org", "lila-db-seed"), ("lichess-org", "api")])),
        service(None, Some(&[("other", "api")])),
    ];
    assert_eq!(
        repositories_to_clone(&config, &services),
        vec![
            Repository::new("lichess-org", "lila"),
            Repository::new("lichess-org", "lila-db-seed"),
            Repository::new("lichess-org", "api"),
            Repository::new("other", "api"),
        ]
    );
}

#[test]
fn other_commands() {
    let fetch = fetch_pull_request("7");
    assert_eq!(
        fetch.args,
        vec!["fetch", "upstream", "pull/7/head:pr-7", "--depth", "25", "--recurse-submodules"]
    );
    let checkout = checkout_branch("pr-7");
    assert_eq!(checkout.args, vec!["checkout", "pr-7"]);
    assert_eq!(checkout.directory.as_deref(), Some("repos/lila"));
    let lfs = git_lfs_version();
    assert_eq!(lfs.program, "git");
    assert_eq!(lfs.args, vec!["lfs", "version"]);
    assert_eq!(lfs.directory, None);
    let publish = publish_port();
    assert_eq!(publish.program, "gp");
    assert_eq!(publish.args, vec!["ports", "visibility", "8080:public"]);
    assert_eq!(publish.directory, None);
}

#[test]
fn git_lfs_counts_only_when_it_ran_and_succeeded() {
    assert!(has_git_lfs(Some(true)));
    assert!(!has_git_lfs(Some(false)));
    assert!(!has_git_lfs(None));
}
