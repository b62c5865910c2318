//! What the web server is configured with.

use vstd::prelude::*;

use crate::utils::envs::{env_value, get_env, Error};

verus! {

#[allow(non_snake_case)]
pub struct WebConfig {
    pub WEB_FOLDER: String,
    pub SERVICE_URL: String,
    pub DOMAIN_MAIN: String,
    pub DOMAIN_DEV: String,
}

/// The first of the variables that `WebConfig` is made of, in the order of its
/// fields, that the environment lacks.
pub open spec fn first_missing(vars: Seq<(String, String)>) -> Option<Seq<char>> {
    if env_value(vars, "SERVICE_WEB_FOLDER"@) is None {
        Some("SERVICE_WEB_FOLDER"@)
    } else if env_value(vars, "SERVICE_URL"@) is None {
        Some("SERVICE_URL"@)
    } else if env_value(vars, "DOMAIN_MAIN"@) is None {
        Some("DOMAIN_MAIN"@)
    } else if env_value(vars, "DOMAIN_DEV"@) is None {
        Some("DOMAIN_DEV"@)
    } else {
        None
    }
}

impl WebConfig {
    /// Whether this configuration is what `vars` holds.
    pub open spec fn is_loaded_from(&self, vars: Seq<(String, String)>) -> bool {
        &&& env_value(vars, "SERVICE_WEB_FOLDER"@) == Some(self.WEB_FOLDER@)
        &&& env_value(vars, "SERVICE_URL"@) == Some(self.SERVICE_URL@)
        &&& env_value(vars, "DOMAIN_MAIN"@) == Some(self.DOMAIN_MAIN@)
        &&& env_value(vars, "DOMAIN_DEV"@) == Some(self.DOMAIN_DEV@)
    }

    /// The configuration that `vars` holds, or the first variable that is
    /// missing.
    pub fn load_from_env(vars: &Vec<(String, String)>) -> (res: Result<WebConfig, Error>)
        ensures
            match res {
                Ok(config) => first_missing(vars@) is None && config.is_loaded_from(vars@),
                Err(Error::MissingEnv(name)) => first_missing(vars@) == Some(name@),
            },
    {
        let web_folder = match get_env(vars, "SERVICE_WEB_FOLDER") {
            Ok(v) => v,
            Err(e) => {
                return Err(e);
            },
        };
        let service_url = match get_env(vars, "SERVICE_URL") {
            Ok(v) => v,
            Err(e) => {
                return Err(e);
            },
        };
        let domain_main = match get_env(vars, "DOMAIN_MAIN") {
            Ok(v) => v,
            Err(e) => {
                return Err(e);
            },
        };
        let domain_dev = match get_env(vars, "DOMAIN_DEV") {
            Ok(v) => v,
            Err(e) => {
                return Err(e);
            },
        };
        Ok(
            WebConfig {
                WEB_FOLDER: web_folder,
                SERVICE_URL: service_url,
                DOMAIN_MAIN: domain_main,
                DOMAIN_DEV: domain_dev,
            },
        )
    }
}

/// The configuration that `vars` holds. The server cannot run without it: the
/// caller sees to it that nothing is missing.
pub fn web_config(vars: &Vec<(String, String)>) -> (config: WebConfig)
    requires
        first_missing(vars@) is None,
    ensures
        config.is_loaded_from(vars@),
{
    WebConfig::load_from_env(vars).unwrap()
}

} // verus!
