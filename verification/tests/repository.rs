use lila_docker::repository::Repository;

#[test]
fn test_repository() {
    let repo = Repository::new("lichess-org", "lila");
    assert_eq!(repo.org, "lichess-org");
    assert_eq!(repo.project, "lila");
    assert_eq!(repo.full_name(), "lichess-org/lila");
    assert_eq!(repo.url(), "https://github.com/lichess-org/lila");
    assert_eq!(repo.clone_path(), "repos/lila");
}

#[test]
fn repositories_compare_by_their_names() {
    let a = Repository::new("lichess-org", "lila");
    let b = Repository::new("lichess-org", "lila");
    let c = Repository::new("lichess-org", "lila-ws");
    let d = Repository::new("cyanfish", "lila");
    assert_eq!(a, b);
    assert_ne!(a, c);
    assert_ne!(a, d);
    assert_eq!(a.clone(), a);
}

#[test]
fn names_of_another_repository() {
    let repo = Repository::new("cyanfish", "bbpPairings");
    assert_eq!(repo.full_name(), "cyanfish/bbpPairings");
    assert_eq!(repo.url(), "https://github.com/cyanfish/bbpPairings");
    assert_eq!(repo.clone_path(), "repos/bbpPairings");
}
