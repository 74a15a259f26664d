use lila_docker::config::{flatten, to_env_line, Config, Entry, Value};

#[test]
fn test_to_env_proc() {
    let foo = Some("test");
    assert_eq!(to_env_line("foo", foo), "FOO=test");
}

#[test]
fn test_set_env_vars_from_struct() {
    let contents = Config {
        quick_setup: Some(true),
        compose_profiles: Some(vec!["foo".to_string(), "bar".to_string()]),
        lila_ws_container: Some("image".to_string()),
        setup_database: Some(true),
        setup_bbppairings: Some(false),
        mock_email: Some(false),
        enable_monitoring: Some(false),
        enable_rate_limiting: Some(true),
        su_password: Some("foo".to_string()),
        password: Some("bar".to_string()),
        setup_api_tokens: Some(false),
        lila_domain: Some("baz:8080".to_string()),
        lila_url: Some("http://baz:8080".to_string()),
    }
    .to_env();

    assert_eq!(
        contents,
        vec![
            "QUICK_SETUP=true",
            "COMPOSE_PROFILES=foo,bar",
            "LILA_WS_CONTAINER=image",
            "SETUP_DATABASE=true",
            "SETUP_BBPPAIRINGS=false",
            "MOCK_EMAIL=false",
            "ENABLE_MONITORING=false",
            "ENABLE_RATE_LIMITING=true",
            "SU_PASSWORD=foo",
            "PASSWORD=bar",
            "SETUP_API_TOKENS=false",
            "LILA_DOMAIN=baz:8080",
            "LILA_URL=http://baz:8080",
        ]
        .join("\n")
    );
}

#[test]
fn test_env_removes_empty_lines() {
    let contents = Config {
        quick_setup: None,
        compose_profiles: None,
        lila_ws_container: None,
        setup_database: None,
        setup_bbppairings: None,
        mock_email: None,
        enable_monitoring: None,
        enable_rate_limiting: None,
        su_password: None,
        password: None,
        setup_api_tokens: None,
        lila_domain: Some("baz:8080".to_string()),
        lila_url: Some("http://baz:8080".to_string()),
    }
    .to_env();

    assert_eq!(
        contents,
        vec!["LILA_DOMAIN=baz:8080", "LILA_URL=http://baz:8080"].join("\n")
    );
    assert!(!contents.contains("COMPOSE_PROFILES="));
}

#[test]
fn flatten_scenario_in_declaration_order() {
    let contents = Config {
        compose_profiles: Some(vec!["foo".to_string(), "bar".to_string()]),
        setup_database: Some(true),
        su_password: Some("foo".to_string()),
        ..Config::default()
    }
    .to_env();
    assert_eq!(
        contents,
        "COMPOSE_PROFILES=foo,bar\nSETUP_DATABASE=true\nSU_PASSWORD=foo"
    );
    assert!(contents.lines().all(|line| !line.is_empty()));
}

#[test]
fn one_line_per_field_that_is_set() {
    let config = Config {
        quick_setup: Some(false),
        mock_email: Some(true),
        password: Some("secret".to_string()),
        lila_url: Some("http://localhost:8080".to_string()),
        ..Config::default()
    };
    let text = config.to_env();
    let lines: Vec<&str> = text.split('\n').collect();
    assert_eq!(lines.len(), 4);
    for key in ["QUICK_SETUP=", "MOCK_EMAIL=", "PASSWORD=", "LILA_URL="] {
        assert_eq!(lines.iter().filter(|l| l.starts_with(key)).count(), 1);
    }
    for key in [
        "COMPOSE_PROFILES=",
        "LILA_WS_CONTAINER=",
        "SETUP_DATABASE=",
        "SETUP_BBPPAIRINGS=",
        "ENABLE_MONITORING=",
        "ENABLE_RATE_LIMITING=",
        "SU_PASSWORD=",
        "SETUP_API_TOKENS=",
        "LILA_DOMAIN=",
    ] {
        assert_eq!(lines.iter().filter(|l| l.starts_with(key)).count(), 0);
    }
}

#[test]
fn empty_record_gives_empty_file() {
    assert_eq!(Config::default().to_env(), "");
}

#[test]
fn default_record_has_nothing_set() {
    let config = Config::default();
    assert!(config.entries().iter().all(|entry| entry.value.is_none()));
    assert_eq!(config.entries().len(), 13);
}

#[test]
fn empty_list_is_a_line_without_value() {
    let config = Config {
        compose_profiles: Some(vec![]),
        ..Config::default()
    };
    assert_eq!(config.to_env(), "COMPOSE_PROFILES=");
}

#[test]
fn entries_follow_the_declaration() {
    let names: Vec<String> = Config::default()
        .entries()
        .into_iter()
        .map(|entry| entry.name)
        .collect();
    assert_eq!(
        names,
        vec![
            "quick_setup",
            "compose_profiles",
            "lila_ws_container",
            "setup_database",
            "setup_bbppairings",
            "mock_email",
            "enable_monitoring",
            "enable_rate_limiting",
            "su_password",
            "password",
            "setup_api_tokens",
            "lila_domain",
            "lila_url",
        ]
    );
}

#[test]
fn values_render_by_their_shape() {
    assert_eq!(Value::Flag(true).render(), "true");
    assert_eq!(Value::Flag(false).render(), "false");
    assert_eq!(Value::Text("a b".to_string()).render(), "a b");
    assert_eq!(
        Value::List(vec!["x".to_string(), "y".to_string(), "z".to_string()]).render(),
        "x,y,z"
    );
    assert_eq!(Value::List(vec![]).render(), "");
}

#[test]
fn flatten_skips_what_is_not_set() {
    let entries = vec![
        Entry { name: "first".to_string(), value: None },
        Entry { name: "second_one".to_string(), value: Some(Value::Flag(false)) },
        Entry { name: "third".to_string(), value: None },
        Entry { name: "fourth".to_string(), value: Some(Value::Text("v".to_string())) },
    ];
    assert_eq!(flatten(&entries), "SECOND_ONE=false\nFOURTH=v");
    assert_eq!(flatten(&vec![]), "");
}

#[test]
fn line_of_a_missing_value_is_empty() {
    assert_eq!(to_env_line("foo", None), "");
    assert_eq!(to_env_line("lila_url", Some("")), "LILA_URL=");
}

#[test]
fn entry_constructors() {
    let flag = Entry::flag("mock_email", &Some(true));
    assert_eq!(flag.name, "mock_email");
    assert!(matches!(flag.value, Some(Value::Flag(true))));
    let text = Entry::text("password", &Some("pw".to_string()));
    assert!(matches!(text.value, Some(Value::Text(ref s)) if s == "pw"));
    let list = Entry::list("compose_profiles", &Some(vec!["a".to_string()]));
    assert!(matches!(list.value, Some(Value::List(ref v)) if v == &vec!["a".to_string()]));
    assert!(Entry::flag("x", &None).value.is_none());
    assert!(Entry::text("x", &None).value.is_none());
    assert!(Entry::list("x", &None).value.is_none());
}
