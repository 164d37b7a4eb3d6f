//! The bot's settings, taken from the values that the environment gives.

use vstd::prelude::*;

verus! {

/// The bot's settings.
#[derive(Debug, PartialEq, Eq)]
pub struct Config {
    /// The homeserver url.
    pub homeserver: String,
    /// The user name of the bot.
    pub username: String,
    /// The password of the bot.
    pub password: String,
    /// The directory that holds the image models.
    pub stable_diffusion_models: String,
}

/// A setting of `Config`.
#[derive(Debug, Clone, Copy, PartialEq, Eq)]
pub enum ConfigField {
    Homeserver,
    Username,
    Password,
    StableDiffusionModels,
}

/// Why the settings could not be put together.
#[derive(Debug, PartialEq, Eq)]
pub enum ConfigError {
    /// A setting had no value.
    MissingField(ConfigField),
}

/// The first setting, in the order of `Config`'s fields, that has no value.
pub open spec fn first_missing(
    homeserver: Option<String>,
    username: Option<String>,
    password: Option<String>,
    stable_diffusion_models: Option<String>,
) -> Option<ConfigField> {
    if homeserver is None {
        Some(ConfigField::Homeserver)
    } else if username is None {
        Some(ConfigField::Username)
    } else if password is None {
        Some(ConfigField::Password)
    } else if stable_diffusion_models is None {
        Some(ConfigField::StableDiffusionModels)
    } else {
        None
    }
}

impl Config {
    /// Puts the settings together from the value found for each, if any.
    /// It fails, naming the first setting in field order that has none,
    /// exactly when one of them is missing.
    pub fn load(
        homeserver: Option<String>,
        username: Option<String>,
        password: Option<String>,
        stable_diffusion_models: Option<String>,
    ) -> (r: Result<Config, ConfigError>)
        ensures
            first_missing(homeserver, username, password, stable_diffusion_models) matches Some(f)
                ==> r == Err::<Config, ConfigError>(ConfigError::MissingField(f)),
            first_missing(homeserver, username, password, stable_diffusion_models) is None ==> r
                == Ok::<Config, ConfigError>(
                (Config {
                    homeserver: homeserver->Some_0,
                    username: username->Some_0,
                    password: password->Some_0,
                    stable_diffusion_models: stable_diffusion_models->Some_0,
                }),
            ),
    {
        let homeserver = match homeserver {
            Some(v) => v,
            None => return Err(ConfigError::MissingField(ConfigField::Homeserver)),
        };
        let username = match username {
            Some(v) => v,
            None => return Err(ConfigError::MissingField(ConfigField::Username)),
        };
        let password = match password {
            Some(v) => v,
            None => return Err(ConfigError::MissingField(ConfigField::Password)),
        };
        let stable_diffusion_models = match stable_diffusion_models {
            Some(v) => v,
            None => return Err(ConfigError::MissingField(ConfigField::StableDiffusionModels)),
        };
        Ok(Config { homeserver, username, password, stable_diffusion_models })
    }
}

} // verus!
