use lila_docker::basic::{env_file, profiles, profiles_line};
use lila_docker::config::Config;
use lila_docker::gitpod::{Gitpod, GitpodWorkspaceContext};
use lila_docker::hostname::{
    asks_for_custom_hostname, can_set_hostname, hostname_choices, local_hostname_choices,
    local_ip_or_loopback,
};
use lila_docker::repository::Repository;
use lila_docker::services::{
    has_profile, optional_services, same_repositories, same_strings, selected_profiles,
    selected_repositories, OptionalService, ServiceChoice,
};
use lila_docker::setup::{
    asks_about_api_tokens, asks_for_passwords, compose_profiles, initial_settings, is_chosen,
    method_without_prompt, password_prompt, setting_choices, setup_api_tokens, Setting,
    SetupMethod, DEFAULT_PASSWORD,
};
use lila_docker::welcome::{documentation_url, site_url};

fn strings(items: &[&str]) -> Vec<String> {
    items.iter().map(|s| s.to_string()).collect()
}

fn with_tag(tag: &str) -> OptionalService {
    OptionalService { compose_profile: Some(strings(&[tag])), repositories: None }
}

#[test]
fn catalogue_of_services() {
    let catalogue = optional_services();
    assert_eq!(catalogue.len(), 17);
    let labels: Vec<&str> = catalogue.iter().map(|c| c.label.as_str()).collect();
    assert_eq!(
        labels,
        vec![
            "Database admin interface",
            "Websocket source code",
            "Outbound email testing",
            "Stockfish Play",
            "Stockfish Game Analysis",
            "External Engine",
            "Search",
            "GIF + image generation",
            "Push server",
            "Image uploads + thumbnails",
            "API docs",
            "Chessground",
            "PGN Viewer",
            "Scalachess",
            "Berserk",
            "Monitoring",
            "Swiss Pairings",
        ]
    );
    let tags: Vec<Option<Vec<String>>> =
        catalogue.iter().map(|c| c.service.compose_profile.clone()).collect();
    assert_eq!(
        tags,
        vec![
            Some(strings(&["mongo-express"])),
            Some(strings(&["lila-ws-build"])),
            Some(strings(&["email"])),
            Some(strings(&["stockfish-play"])),
            Some(strings(&["stockfish-analysis"])),
            Some(strings(&["external-engine"])),
            Some(strings(&["search"])),
            Some(strings(&["gifs"])),
            Some(strings(&["push"])),
            Some(strings(&["thumbnails"])),
            Some(strings(&["api-docs"])),
            Some(strings(&["chessground"])),
            Some(strings(&["pgn-viewer"])),
            None,
            None,
            Some(strings(&["monitoring"])),
            Some(strings(&["swiss-pairings"])),
        ]
    );
    let repos: Vec<Option<String>> = catalogue
        .iter()
        .map(|c| c.service.repositories.as_ref().map(|r| r[0].full_name()))
        .collect();
    let named = |s: &str| Some(s.to_string());
    assert_eq!(
        repos,
        vec![
            None,
            named("lichess-org/lila-ws"),
            None,
            named("lichess-org/lila-fishnet"),
            None,
            named("lichess-org/lila-engine"),
            None,
            named("lichess-org/lila-gif"),
            named("lichess-org/lila-push"),
            None,
            named("lichess-org/api"),
            named("lichess-org/chessground"),
            named("lichess-org/pgn-viewer"),
            named("lichess-org/scalachess"),
            named("lichess-org/berserk"),
            None,
            named("cyanfish/bbpPairings"),
        ]
    );
    assert_eq!(catalogue[0].hint, "Mongo Express for viewing database structure and data");
    assert_eq!(catalogue[16].hint, "bbpPairings tool");
    assert!(catalogue
        .iter()
        .all(|c| c.service.repositories.as_ref().map_or(true, |r| r.len() == 1)));
}

#[test]
fn service_choice_constructor() {
    let choice = ServiceChoice::new(Some("tag"), Some(("org", "project")), "Label", "hint");
    assert_eq!(choice.service.compose_profile, Some(strings(&["tag"])));
    assert_eq!(choice.service.repositories, Some(vec![Repository::new("org", "project")]));
    assert_eq!(choice.label, "Label");
    assert_eq!(choice.hint, "hint");
    let bare = ServiceChoice::new(None, None, "", "");
    assert_eq!(bare.service, OptionalService::default());
}

#[test]
fn services_compare_by_what_they_add() {
    let a = ServiceChoice::new(Some("x"), Some(("o", "p")), "", "").service;
    let b = ServiceChoice::new(Some("x"), Some(("o", "p")), "other", "words").service;
    let c = ServiceChoice::new(Some("x"), None, "", "").service;
    let d = ServiceChoice::new(Some("y"), Some(("o", "p")), "", "").service;
    assert_eq!(a, b);
    assert_eq!(a.clone(), a);
    assert_ne!(a, c);
    assert_ne!(a, d);
    assert!(same_strings(&strings(&["a", "b"]), &strings(&["a", "b"])));
    assert!(!same_strings(&strings(&["a", "b"]), &strings(&["b", "a"])));
    assert!(!same_strings(&strings(&["a"]), &strings(&["a", "a"])));
    assert!(same_repositories(&vec![], &vec![]));
    assert!(!same_repositories(&vec![Repository::new("a", "b")], &vec![]));
}

#[test]
fn profile_lookup_wants_the_tag_alone() {
    let services = vec![
        with_tag("email"),
        OptionalService { compose_profile: None, repositories: None },
        OptionalService {
            compose_profile: Some(strings(&["monitoring", "extra"])),
            repositories: None,
        },
    ];
    assert!(has_profile(&services, "email"));
    assert!(!has_profile(&services, "monitoring"));
    assert!(!has_profile(&services, "extra"));
    assert!(!has_profile(&services, "emai"));
    assert!(!has_profile(&vec![], "email"));
}

#[test]
fn selected_profiles_and_repositories_in_order() {
    let services = vec![
        ServiceChoice::new(Some("push"), Some(("lichess-org", "lila-push")), "", "").service,
        ServiceChoice::new(None, Some(("lichess-org", "berserk")), "", "").service,
        ServiceChoice::new(Some("email"), None, "", "").service,
        OptionalService {
            compose_profile: Some(strings(&["a", "b"])),
            repositories: Some(vec![Repository::new("x", "y"), Repository::new("x", "z")]),
        },
    ];
    assert_eq!(selected_profiles(&services), strings(&["push", "email", "a", "b"]));
    assert_eq!(
        selected_repositories(&services),
        vec![
            Repository::new("lichess-org", "lila-push"),
            Repository::new("lichess-org", "berserk"),
            Repository::new("x", "y"),
            Repository::new("x", "z"),
        ]
    );
    assert_eq!(selected_profiles(&vec![]), strings(&[]));
    assert_eq!(selected_repositories(&vec![]), vec![]);
}

#[test]
fn method_is_fixed_only_without_a_user() {
    assert_eq!(method_without_prompt(true), Some(SetupMethod::Quick));
    assert_eq!(method_without_prompt(false), None);
}

#[test]
fn settings_on_offer() {
    assert_eq!(
        initial_settings(true),
        vec![Setting::SetupDatabase, Setting::EnableRateLimiting]
    );
    assert_eq!(initial_settings(false), vec![Setting::EnableRateLimiting]);
    let first = setting_choices(true);
    assert_eq!(first.len(), 2);
    assert_eq!(first[0].setting, Setting::SetupDatabase);
    assert_eq!(
        first[0].label,
        "Seed the database with test users, games, etc. (Recommended)"
    );
    assert_eq!(first[0].hint, "");
    assert_eq!(first[1].setting, Setting::EnableRateLimiting);
    assert_eq!(first[1].label, "Enable rate limiting");
    assert_eq!(
        first[1].hint,
        "To be prod-like. Can be disabled for development/testing purposes"
    );
    let later = setting_choices(false);
    assert_eq!(later[0].label, "Re-seed the database with test users, games, etc.");
    assert_eq!(later[1].label, "Enable rate limiting");
}

#[test]
fn questions_that_are_asked() {
    let both = vec![Setting::SetupDatabase, Setting::EnableRateLimiting];
    let limits = vec![Setting::EnableRateLimiting];
    assert!(is_chosen(&both, Setting::SetupDatabase));
    assert!(is_chosen(&both, Setting::EnableRateLimiting));
    assert!(!is_chosen(&limits, Setting::SetupDatabase));
    assert!(!is_chosen(&vec![], Setting::EnableRateLimiting));
    assert!(asks_for_passwords(&both));
    assert!(!asks_for_passwords(&limits));
    assert!(!asks_about_api_tokens(&both, "password", "password"));
    assert!(asks_about_api_tokens(&both, "secret", "password"));
    assert!(asks_about_api_tokens(&both, "password", "secret"));
    assert!(!asks_about_api_tokens(&limits, "secret", "secret"));
    assert_eq!(password_prompt("admin"), "Choose a password for admin users (blank for 'password')");
    assert_eq!(DEFAULT_PASSWORD, "password");
}

#[test]
fn api_tokens() {
    let both = vec![Setting::SetupDatabase, Setting::EnableRateLimiting];
    let limits = vec![Setting::EnableRateLimiting];
    assert!(setup_api_tokens(&both, "password", "password", false));
    assert!(setup_api_tokens(&both, "password", "password", true));
    assert!(setup_api_tokens(&both, "secret", "password", true));
    assert!(!setup_api_tokens(&both, "secret", "password", false));
    assert!(!setup_api_tokens(&both, "password", "secret", false));
    assert!(!setup_api_tokens(&limits, "password", "password", true));
    assert!(!setup_api_tokens(&limits, "secret", "secret", true));
}

#[test]
fn quick_setup_sets_the_fixed_values() {
    let mut config = Config {
        mock_email: Some(true),
        lila_ws_container: Some("build".to_string()),
        password: Some("old".to_string()),
        ..Config::default()
    };
    config.apply_quick_setup();
    assert_eq!(config.quick_setup, Some(true));
    assert_eq!(config.password.as_deref(), Some("password"));
    assert_eq!(config.su_password.as_deref(), Some("password"));
    assert_eq!(config.setup_api_tokens, Some(true));
    assert_eq!(config.enable_rate_limiting, Some(true));
    assert_eq!(config.setup_database, Some(true));
    assert_eq!(config.mock_email, Some(true));
    assert_eq!(config.lila_ws_container.as_deref(), Some("build"));
    assert_eq!(config.setup_bbppairings, None);
    assert_eq!(config.enable_monitoring, None);
    assert_eq!(config.compose_profiles, None);
    assert_eq!(config.lila_domain, None);
    assert_eq!(config.lila_url, None);
}

#[test]
fn advanced_setup_with_services() {
    let mut config = Config { lila_url: Some("kept".to_string()), ..Config::default() };
    let services = vec![with_tag("email"), with_tag("lila-ws-build"), with_tag("swiss-pairings")];
    let options = vec![Setting::SetupDatabase];
    config.apply_advanced_setup(&services, &options, "root", "user", true);
    assert_eq!(config.quick_setup, Some(false));
    assert_eq!(config.setup_database, Some(true));
    assert_eq!(config.enable_rate_limiting, Some(false));
    assert_eq!(config.su_password.as_deref(), Some("root"));
    assert_eq!(config.password.as_deref(), Some("user"));
    assert_eq!(config.setup_api_tokens, Some(true));
    assert_eq!(config.setup_bbppairings, Some(true));
    assert_eq!(config.mock_email, Some(false));
    assert_eq!(config.enable_monitoring, Some(false));
    assert_eq!(config.lila_ws_container.as_deref(), Some("build"));
    assert_eq!(config.lila_url.as_deref(), Some("kept"));
    assert_eq!(config.compose_profiles, None);
}

#[test]
fn advanced_setup_without_seeding_keeps_default_passwords() {
    let mut config = Config::default();
    let options = vec![Setting::EnableRateLimiting];
    config.apply_advanced_setup(&vec![with_tag("monitoring")], &options, "root", "user", true);
    assert_eq!(config.setup_database, Some(false));
    assert_eq!(config.enable_rate_limiting, Some(true));
    assert_eq!(config.su_password.as_deref(), Some("password"));
    assert_eq!(config.password.as_deref(), Some("password"));
    assert_eq!(config.setup_api_tokens, Some(false));
    assert_eq!(config.setup_bbppairings, Some(false));
    assert_eq!(config.mock_email, Some(true));
    assert_eq!(config.enable_monitoring, Some(true));
    assert_eq!(config.lila_ws_container.as_deref(), Some("image"));
}

#[test]
fn advanced_setup_without_confirmation() {
    let mut config = Config::default();
    let options = vec![Setting::SetupDatabase, Setting::EnableRateLimiting];
    config.apply_advanced_setup(&vec![], &options, "password", "changed", false);
    assert_eq!(config.setup_api_tokens, Some(false));
    config.apply_advanced_setup(&vec![], &options, "password", "password", false);
    assert_eq!(config.setup_api_tokens, Some(true));
}

#[test]
fn compose_profiles_are_sorted_and_unique() {
    let services = vec![with_tag("search"), with_tag("email"), with_tag("search")];
    assert_eq!(
        compose_profiles(&services, &None, true, false),
        strings(&["base", "email", "search"])
    );
    assert_eq!(compose_profiles(&vec![], &None, true, true), strings(&["quick"]));
    let held = Some(strings(&["push", "base", "email"]));
    assert_eq!(
        compose_profiles(&services, &held, false, false),
        strings(&["base", "email", "push", "search"])
    );
    assert_eq!(
        compose_profiles(&services, &held, true, false),
        strings(&["base", "email", "search"])
    );
    assert_eq!(
        compose_profiles(&vec![], &held, false, true),
        strings(&["base", "email", "push", "quick"])
    );
}

#[test]
fn set_compose_profiles_changes_that_field_only() {
    let mut config = Config {
        compose_profiles: Some(strings(&["gifs"])),
        password: Some("pw".to_string()),
        ..Config::default()
    };
    config.set_compose_profiles(&vec![with_tag("api-docs")], false, false);
    assert_eq!(config.compose_profiles, Some(strings(&["api-docs", "base", "gifs"])));
    assert_eq!(config.password.as_deref(), Some("pw"));
    assert_eq!(config.quick_setup, None);
    config.set_compose_profiles(&vec![], true, true);
    assert_eq!(config.compose_profiles, Some(strings(&["quick"])));
}

#[test]
fn gitpod_gives_the_site_its_address() {
    let gitpod = Gitpod::new("https://abc.ws-us123.gitpod.io", GitpodWorkspaceContext::default());
    let mut config = Config { mock_email: Some(true), ..Config::default() };
    config.use_gitpod(&gitpod);
    assert_eq!(config.lila_domain.as_deref(), Some("8080-abc.ws-us123.gitpod.io"));
    assert_eq!(config.lila_url.as_deref(), Some("https://8080-abc.ws-us123.gitpod.io"));
    assert_eq!(config.mock_email, Some(true));
}

#[test]
fn hostname_sets_domain_and_address() {
    let mut config = Config { password: Some("pw".to_string()), ..Config::default() };
    config.set_hostname("baz");
    assert_eq!(config.lila_domain.as_deref(), Some("baz:8080"));
    assert_eq!(config.lila_url.as_deref(), Some("http://baz:8080"));
    assert_eq!(config.password.as_deref(), Some("pw"));
    assert_eq!(config.to_env(), "PASSWORD=pw\nLILA_DOMAIN=baz:8080\nLILA_URL=http://baz:8080");
}

#[test]
fn hostnames_on_offer() {
    let choices = hostname_choices("192.168.1.7");
    let values: Vec<&str> = choices.iter().map(|c| c.value.as_str()).collect();
    assert_eq!(values, vec!["localhost", "192.168.1.7", "10.0.2.2", "other"]);
    let labels: Vec<&str> = choices.iter().map(|c| c.label.as_str()).collect();
    assert_eq!(labels, vec!["localhost", "192.168.1.7", "10.0.2.2", "Other"]);
    assert_eq!(choices[0].hint, "default");
    assert_eq!(
        choices[1].hint,
        "Your private IP address, for accessing from other devices on your local network"
    );
    assert_eq!(
        choices[2].hint,
        "For accessing from an Android emulator running on this machine"
    );
    assert_eq!(choices[3].hint, "Enter a custom hostname");
}

#[test]
fn loopback_stands_in_for_an_unknown_address() {
    assert_eq!(local_ip_or_loopback(None), "127.0.0.1");
    assert_eq!(local_ip_or_loopback(Some("10.1.2.3".to_string())), "10.1.2.3");
}

#[test]
fn hostnames_of_this_machine() {
    let choices = local_hostname_choices();
    assert_eq!(choices.len(), 4);
    assert_eq!(choices[0].value, "localhost");
    assert!(!choices[1].value.is_empty());
    assert_eq!(choices[1].value, choices[1].label);
    assert_eq!(choices[2].value, "10.0.2.2");
    assert_eq!(choices[3].value, "other");
}

#[test]
fn custom_hostname_and_gitpod() {
    assert!(asks_for_custom_hostname("other"));
    assert!(!asks_for_custom_hostname("Other"));
    assert!(!asks_for_custom_hostname("localhost"));
    assert!(can_set_hostname(false));
    assert!(!can_set_hostname(true));
}

#[test]
fn welcome_addresses() {
    assert_eq!(site_url(&Config::default()), "http://localhost:8080");
    let config = Config { lila_url: Some("http://baz:8080".to_string()), ..Config::default() };
    assert_eq!(site_url(&config), "http://baz:8080");
    assert_eq!(documentation_url(true), "https://lichess-org.github.io/lila-gitpod/");
    assert_eq!(documentation_url(false), "https://github.com/lichess-org/lila-docker");
}

#[test]
fn service_groups() {
    let groups = profiles();
    let tags: Vec<&str> = groups.iter().map(|p| p.compose_profile.as_str()).collect();
    assert_eq!(tags, vec!["", "stockfish", "external-engine", "search", "images"]);
    let names: Vec<&str> = groups.iter().map(|p| p.name.as_str()).collect();
    assert_eq!(
        names,
        vec![
            "Default (lila, lila-ws, mongodb, redis)",
            "Stockfish (for playing against or analyzing games)",
            "External Engine",
            "Search (elasticsearch, lila-search)",
            "Images (for generating gifs and thumbnails)",
        ]
    );
    assert_eq!(groups[0].hint(), "required");
    assert_eq!(groups[1].hint(), "");
}

#[test]
fn short_environment_file() {
    let selected = strings(&["", "search"]);
    assert_eq!(profiles_line(&selected), "COMPOSE_PROFILES=,search");
    assert_eq!(profiles_line(&strings(&[])), "COMPOSE_PROFILES=");
    assert_eq!(
        env_file(&selected, true, "root", "user"),
        "COMPOSE_PROFILES=,search\nSETUP_DB=true\nSU_PASSWORD=root\nPASSWORD=user"
    );
    assert_eq!(
        env_file(&strings(&["images"]), false, "root", "user"),
        "COMPOSE_PROFILES=images\nSETUP_DB=false\nSU_PASSWORD=\nPASSWORD="
    );
}
