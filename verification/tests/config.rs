use lib_auth::config::{core_config, CoreConfig};
use lib_auth::email;
use lib_auth::utils::envs::{get_env, Error};
use lib_auth::web::config::{web_config, WebConfig};

fn vars(pairs: &[(&str, &str)]) -> Vec<(String, String)> {
    pairs
        .iter()
        .map(|(name, value)| (name.to_string(), value.to_string()))
        .collect()
}

fn missing<T>(res: Result<T, Error>) -> String {
    match res {
        Err(Error::MissingEnv(name)) => name,
        Ok(_) => panic!("nothing is missing"),
    }
}

#[test]
fn get_env_finds_the_value() {
    let env = vars(&[("A", "1"), ("B", ""), ("AB", "3"), ("A", "4")]);
    assert_eq!(get_env(&env, "A").unwrap(), "1");
    assert_eq!(get_env(&env, "B").unwrap(), "");
    assert_eq!(get_env(&env, "AB").unwrap(), "3");
}

#[test]
fn get_env_names_what_is_missing() {
    let env = vars(&[("A", "1"), ("B", "2")]);
    assert_eq!(missing(get_env(&env, "C")), "C");
    assert_eq!(missing(get_env(&env, "a")), "a");
    assert_eq!(missing(get_env(&env, "")), "");
    assert_eq!(missing(get_env(&vars(&[]), "A")), "A");
}

#[test]
fn core_config_is_loaded() {
    let env = vars(&[
        ("SERVICE_WEB_FOLDER", "web-folder/"),
        ("DATABASE_URL", "postgres://app"),
        ("OTHER", "x"),
        ("DATABASE_URL_DEV", "postgres://dev"),
    ]);
    let config = CoreConfig::load_from_env(&env).unwrap();
    assert_eq!(config.DEV_DB_URL, "postgres://dev");
    assert_eq!(config.DB_URL, "postgres://app");
    assert_eq!(config.WEB_FOLDER, "web-folder/");
    let config = core_config(&env);
    assert_eq!(config.DB_URL, "postgres://app");
}

#[test]
fn core_config_names_the_first_that_is_missing() {
    assert_eq!(missing(CoreConfig::load_from_env(&vars(&[]))), "DATABASE_URL_DEV");
    assert_eq!(
        missing(CoreConfig::load_from_env(&vars(&[("SERVICE_WEB_FOLDER", "w")]))),
        "DATABASE_URL_DEV"
    );
    assert_eq!(
        missing(CoreConfig::load_from_env(&vars(&[("DATABASE_URL_DEV", "d")]))),
        "DATABASE_URL"
    );
    assert_eq!(
        missing(CoreConfig::load_from_env(&vars(&[
            ("DATABASE_URL", "a"),
            ("DATABASE_URL_DEV", "d")
        ]))),
        "SERVICE_WEB_FOLDER"
    );
}

#[test]
fn web_config_is_loaded() {
    let env = vars(&[
        ("DOMAIN_DEV", "localhost"),
        ("DOMAIN_MAIN", "example.com"),
        ("SERVICE_URL", "127.0.0.1:3999"),
        ("SERVICE_WEB_FOLDER", "web-folder/"),
    ]);
    let config = WebConfig::load_from_env(&env).unwrap();
    assert_eq!(config.WEB_FOLDER, "web-folder/");
    assert_eq!(config.SERVICE_URL, "127.0.0.1:3999");
    assert_eq!(config.DOMAIN_MAIN, "example.com");
    assert_eq!(config.DOMAIN_DEV, "localhost");
    assert_eq!(web_config(&env).SERVICE_URL, "127.0.0.1:3999");
}

#[test]
fn web_config_names_the_first_that_is_missing() {
    assert_eq!(missing(WebConfig::load_from_env(&vars(&[]))), "SERVICE_WEB_FOLDER");
    assert_eq!(
        missing(WebConfig::load_from_env(&vars(&[
            ("SERVICE_WEB_FOLDER", "w"),
            ("DOMAIN_DEV", "d")
        ]))),
        "SERVICE_URL"
    );
    assert_eq!(
        missing(WebConfig::load_from_env(&vars(&[
            ("SERVICE_WEB_FOLDER", "w"),
            ("SERVICE_URL", "u"),
            ("DOMAIN_DEV", "d")
        ]))),
        "DOMAIN_MAIN"
    );
    assert_eq!(
        missing(WebConfig::load_from_env(&vars(&[
            ("SERVICE_WEB_FOLDER", "w"),
            ("SERVICE_URL", "u"),
            ("DOMAIN_MAIN", "m")
        ]))),
        "DOMAIN_DEV"
    );
}

const EMAIL_NAMES: [&str; 12] = [
    "HOSTINGER_SMTP",
    "HOSTINGER_PORT",
    "HOSTINGER_USER",
    "HOSTINGER_PASS",
    "IONOS_SMTP",
    "IONOS_PORT",
    "IONOS_USER",
    "IONOS_PASS",
    "GMAIL_SMTP_HOST",
    "GMAIL_SMTP_PORT",
    "GMAIL_SMTP_USER",
    "GMAIL_SMTP_PASS",
];

#[test]
fn email_config_is_loaded() {
    let env: Vec<(String, String)> = EMAIL_NAMES
        .iter()
        .rev()
        .map(|name| (name.to_string(), format!("value of {name}")))
        .collect();
    let config = email::config::CoreConfig::load_from_env(&env).unwrap();
    assert_eq!(config.HOSTINGER_SMTP, "value of HOSTINGER_SMTP");
    assert_eq!(config.HOSTINGER_PORT, "value of HOSTINGER_PORT");
    assert_eq!(config.HOSTINGER_USER, "value of HOSTINGER_USER");
    assert_eq!(config.HOSTINGER_PASS, "value of HOSTINGER_PASS");
    assert_eq!(config.IONOS_SMTP, "value of IONOS_SMTP");
    assert_eq!(config.IONOS_PORT, "value of IONOS_PORT");
    assert_eq!(config.IONOS_USER, "value of IONOS_USER");
    assert_eq!(config.IONOS_PASS, "value of IONOS_PASS");
    assert_eq!(config.GMAIL_SMTP_HOST, "value of GMAIL_SMTP_HOST");
    assert_eq!(config.GMAIL_SMTP_PORT, "value of GMAIL_SMTP_PORT");
    assert_eq!(config.GMAIL_SMTP_USER, "value of GMAIL_SMTP_USER");
    assert_eq!(config.GMAIL_SMTP_PASS, "value of GMAIL_SMTP_PASS");
    assert_eq!(
        email::config::core_config(&env).GMAIL_SMTP_PASS,
        "value of GMAIL_SMTP_PASS"
    );
}

#[test]
fn email_config_names_the_first_that_is_missing() {
    for (i, name) in EMAIL_NAMES.iter().enumerate() {
        // all are there but this one and the last
        let env: Vec<(String, String)> = EMAIL_NAMES
            .iter()
            .enumerate()
            .filter(|(k, _)| *k != i && *k != 11)
            .map(|(_, other)| (other.to_string(), String::new()))
            .collect();
        assert_eq!(
            missing(email::config::CoreConfig::load_from_env(&env)),
            *name
        );
    }
}
