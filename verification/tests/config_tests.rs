use fastclient::config::{AppEnv, ConfigError, EnvValues, Settings};

fn settings(v: &EnvValues) -> Settings {
    match Settings::from_env(v) {
        Ok(s) => s,
        Err(_) => panic!("settings refused"),
    }
}

fn none() -> EnvValues {
    EnvValues {
        app_name: None,
        app_env: None,
        app_debug: None,
        app_url: None,
        database_url: None,
        db_host: None,
        db_port: None,
        db_database: None,
        db_username: None,
        db_password: None,
        app_addr: None,
    }
}

#[test]
fn defaults() {
    let s = settings(&none());
    assert_eq!(s.app_name, "FastClient");
    assert!(s.app_env.is_dev());
    assert!(s.app_debug);
    assert_eq!(s.app_url, "http://localhost:8000");
    assert_eq!(s.database_url, "postgres://postgres@localhost/fastclient");
    assert_eq!(s.addr, "0.0.0.0:8000");
}

#[test]
fn database_url_from_parts_with_password() {
    let mut v = none();
    v.db_host = Some("db".to_string());
    v.db_port = Some("6543".to_string());
    v.db_database = Some("crm".to_string());
    v.db_username = Some("me".to_string());
    v.db_password = Some("pw".to_string());
    assert_eq!(settings(&v).database_url, "postgres://me:pw@db:6543/crm");
    v.db_password = Some(String::new());
    assert_eq!(settings(&v).database_url, "postgres://me@db/crm");
    v.database_url = Some("postgres://given".to_string());
    assert_eq!(settings(&v).database_url, "postgres://given");
}

#[test]
fn environment_and_debug() {
    let mut v = none();
    v.app_env = Some("production".to_string());
    v.app_debug = Some("false".to_string());
    let s = settings(&v);
    assert!(matches!(s.app_env, AppEnv::Production));
    assert!(!s.app_env.is_dev());
    assert!(!s.app_debug);
    v.app_env = Some("Production".to_string());
    v.app_debug = Some("no".to_string());
    let s = settings(&v);
    assert!(s.app_env.is_dev());
    assert!(s.app_debug);
}

#[test]
fn listening_address_must_parse() {
    let mut v = none();
    v.app_addr = Some("127.0.0.1:3000".to_string());
    assert_eq!(settings(&v).addr, "127.0.0.1:3000");
    v.app_addr = Some("[::1]:8080".to_string());
    assert_eq!(settings(&v).addr, "[::1]:8080");
    v.app_addr = Some("localhost:8000".to_string());
    assert!(matches!(Settings::from_env(&v), Err(ConfigError::InvalidAddress(a)) if a == "localhost:8000"));
    v.app_addr = Some("0.0.0.0".to_string());
    assert!(matches!(Settings::from_env(&v), Err(ConfigError::InvalidAddress(_))));
}
