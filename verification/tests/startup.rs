use collabs_code::database::{database_target, setup_plan, Backend};
use collabs_code::settings::{config_sources, ConfigSource};

fn describe(sources: &[ConfigSource]) -> Vec<(String, bool, bool)> {
    sources
        .iter()
        .map(|s| match s {
            ConfigSource::File { name, required } => (name.clone(), *required, false),
            ConfigSource::Environment { prefix } => (prefix.clone(), false, true),
        })
        .collect()
}

#[test]
fn config_sources_default_run_mode() {
    assert_eq!(
        describe(&config_sources(None)),
        vec![
            ("src/config/default".to_string(), true, false),
            ("src/config/development".to_string(), false, false),
            ("src/config/local".to_string(), false, false),
            ("APP".to_string(), false, true),
        ]
    );
}

#[test]
fn config_sources_given_run_mode() {
    let d = describe(&config_sources(Some("production".to_string())));
    assert_eq!(d[1], ("src/config/production".to_string(), false, false));
    assert_eq!(d.len(), 4);
}

#[test]
fn sqlite_needs_no_setup() {
    let p = setup_plan(Backend::Sqlite, "sqlite:db.sqlite", "app");
    assert!(p.statements.is_empty());
    assert!(p.reconnect_url.is_none());
}

#[test]
fn mysql_creates_if_missing() {
    let p = setup_plan(Backend::MySql, "mysql://root@localhost:3306", "collabs");
    assert_eq!(p.statements, vec!["CREATE DATABASE IF NOT EXISTS `collabs`;".to_string()]);
    assert_eq!(p.reconnect_url.as_deref(), Some("mysql://root@localhost:3306/collabs"));
}

#[test]
fn postgres_drops_then_creates() {
    let p = setup_plan(Backend::Postgres, "postgres://u:p@h", "collabs");
    assert_eq!(
        p.statements,
        vec![
            "DROP DATABASE IF EXISTS \"collabs\";".to_string(),
            "CREATE DATABASE \"collabs\";".to_string()
        ]
    );
    assert_eq!(p.reconnect_url.as_deref(), Some("postgres://u:p@h/collabs"));
}

#[test]
fn database_target_defaults() {
    assert_eq!(
        database_target(None, None),
        ("sqlite:collabs-code.db".to_string(), "collabs-code".to_string())
    );
    assert_eq!(
        database_target(Some("mysql://h".to_string()), Some("x".to_string())),
        ("mysql://h".to_string(), "x".to_string())
    );
}
