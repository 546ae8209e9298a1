use nyat::configuration::ApplicationConfig;
use nyat::configuration::Environment;
use nyat::configuration::SecurityConfig;
use nyat::startup::TokenExpireInterval;
use nyat::startup::TokenSecret;

#[test]
fn an_environment_has_the_name_of_its_file() {
    assert_eq!(Environment::Local.as_str(), "local");
    assert_eq!(Environment::Production.as_str(), "production");
}

#[test]
fn an_environment_is_found_by_its_name() {
    assert_eq!(Environment::try_from("local".to_string()), Ok(Environment::Local));
    assert_eq!(Environment::try_from("production".to_string()), Ok(Environment::Production));
}

#[test]
fn the_case_of_an_environments_name_does_not_matter() {
    assert_eq!(Environment::try_from("LOCAL".to_string()), Ok(Environment::Local));
    assert_eq!(Environment::try_from("Production".to_string()), Ok(Environment::Production));
    assert_eq!(Environment::try_from("pRoDuCtIoN".to_string()), Ok(Environment::Production));
}

#[test]
fn another_name_is_reported_in_lower_case() {
    assert_eq!(
        Environment::try_from("Staging".to_string()),
        Err("staging is not a supported environment. Use either `local` or `production`."
            .to_string())
    );
    assert_eq!(
        Environment::try_from("".to_string()),
        Err(" is not a supported environment. Use either `local` or `production`.".to_string())
    );
    assert_eq!(
        Environment::try_from(" local".to_string()),
        Err(" local is not a supported environment. Use either `local` or `production`."
            .to_string())
    );
}

#[test]
fn a_name_in_lower_case_is_matched_to_the_letter() {
    assert_eq!(Environment::from_lowercase("local".to_string()), Ok(Environment::Local));
    assert_eq!(
        Environment::from_lowercase("LOCAL".to_string()),
        Err("LOCAL is not a supported environment. Use either `local` or `production`."
            .to_string())
    );
}

#[test]
fn every_environment_is_found_by_its_own_name() {
    for environment in [Environment::Local, Environment::Production] {
        assert_eq!(Environment::try_from(environment.as_str().to_string()), Ok(environment));
    }
}

#[test]
fn the_configuration_is_held_as_plain_values() {
    let application = ApplicationConfig { host: "127.0.0.1".to_string(), port: 8000 };
    assert_eq!(application.host, "127.0.0.1");
    assert_eq!(application.port, 8000);
    let security =
        SecurityConfig { token_expire_interval: 3600, token_secret: "secret".to_string() };
    let interval = TokenExpireInterval(security.token_expire_interval);
    let secret = TokenSecret(security.token_secret.into_bytes());
    assert_eq!(interval.0, 3600);
    assert_eq!(secret.0, b"secret".to_vec());
}

#[test]
fn the_environment_is_local_where_none_is_named() {
    assert_eq!(Environment::from_app_env(None), Ok(Environment::Local));
}

#[test]
fn the_environment_is_the_one_that_is_named() {
    assert_eq!(Environment::from_app_env(Some("PRODUCTION".to_string())), Ok(Environment::Production));
    assert_eq!(Environment::from_app_env(Some("local".to_string())), Ok(Environment::Local));
    assert_eq!(
        Environment::from_app_env(Some("test".to_string())),
        Err("test is not a supported environment. Use either `local` or `production`.".to_string())
    );
}

#[test]
fn the_configuration_file_has_the_environments_name() {
    assert_eq!(Environment::Local.config_file_name(), "local.yaml");
    assert_eq!(Environment::Production.config_file_name(), "production.yaml");
}
