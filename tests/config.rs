use genbot::config::{Config, ConfigError, ConfigField};

fn s(v: &str) -> Option<String> {
    Some(v.to_string())
}

#[test]
fn load_with_every_setting() {
    let c = Config::load(s("https://example.org"), s("bot"), s("SECRET-REDACTED"), s("/models")).unwrap();
    assert_eq!(
        c,
        Config {
            homeserver: "https://example.org".to_string(),
            username: "bot".to_string(),
            password: "SECRET-REDACTED".to_string(),
            stable_diffusion_models: "/models".to_string(),
        }
    );
}

#[test]
fn load_names_each_missing_setting() {
    let e = Config::load(None, s("b"), s("p"), s("m")).unwrap_err();
    assert_eq!(e, ConfigError::MissingField(ConfigField::Homeserver));
    let e = Config::load(s("h"), None, s("p"), s("m")).unwrap_err();
    assert_eq!(e, ConfigError::MissingField(ConfigField::Username));
    let e = Config::load(s("h"), s("b"), None, s("m")).unwrap_err();
    assert_eq!(e, ConfigError::MissingField(ConfigField::Password));
    let e = Config::load(s("h"), s("b"), s("p"), None).unwrap_err();
    assert_eq!(e, ConfigError::MissingField(ConfigField::StableDiffusionModels));
}

#[test]
fn load_names_the_first_missing_setting() {
    let e = Config::load(s("h"), None, None, None).unwrap_err();
    assert_eq!(e, ConfigError::MissingField(ConfigField::Username));
    let e = Config::load(None, None, None, None).unwrap_err();
    assert_eq!(e, ConfigError::MissingField(ConfigField::Homeserver));
}
