//! What the core of the service is configured with.

use vstd::prelude::*;

use crate::utils::envs::{env_value, get_env, Error};

verus! {

#[allow(non_snake_case)]
pub struct CoreConfig {
    pub DEV_DB_URL: String,
    pub DB_URL: String,
    pub WEB_FOLDER: String,
}

/// The first of the variables that `CoreConfig` is made of, in the order of its
/// fields, that the environment lacks.
pub open spec fn first_missing(vars: Seq<(String, String)>) -> Option<Seq<char>> {
    if env_value(vars, "DATABASE_URL_DEV"@) is None {
        Some("DATABASE_URL_DEV"@)
    } else if env_value(vars, "DATABASE_URL"@) is None {
        Some("DATABASE_URL"@)
    } else if env_value(vars, "SERVICE_WEB_FOLDER"@) is None {
        Some("SERVICE_WEB_FOLDER"@)
    } else {
        None
    }
}

impl CoreConfig {
    /// Whether this configuration is what `vars` holds.
    pub open spec fn is_loaded_from(&self, vars: Seq<(String, String)>) -> bool {
        &&& env_value(vars, "DATABASE_URL_DEV"@) == Some(self.DEV_DB_URL@)
        &&& env_value(vars, "DATABASE_URL"@) == Some(self.DB_URL@)
        &&& env_value(vars, "SERVICE_WEB_FOLDER"@) == Some(self.WEB_FOLDER@)
    }

    /// The configuration that `vars` holds, or the first variable that is
    /// missing.
    pub fn load_from_env(vars: &Vec<(String, String)>) -> (res: Result<CoreConfig, Error>)
        ensures
            match res {
                Ok(config) => first_missing(vars@) is None && config.is_loaded_from(vars@),
                Err(Error::MissingEnv(name)) => first_missing(vars@) == Some(name@),
            },
    {
        let dev_db_url = match get_env(vars, "DATABASE_URL_DEV") {
            Ok(v) => v,
            Err(e) => {
                return Err(e);
            },
        };
        let db_url = match get_env(vars, "DATABASE_URL") {
            Ok(v) => v,
            Err(e) => {
                return Err(e);
            },
        };
        let web_folder = match get_env(vars, "SERVICE_WEB_FOLDER") {
            Ok(v) => v,
            Err(e) => {
                return Err(e);
            },
        };
        Ok(
            CoreConfig {
                DEV_DB_URL: dev_db_url,
                DB_URL: db_url,
                WEB_FOLDER: web_folder,
            },
        )
    }
}

/// The configuration that `vars` holds. The service cannot run without it: the
/// caller sees to it that nothing is missing.
pub fn core_config(vars: &Vec<(String, String)>) -> (config: CoreConfig)
    requires
        first_missing(vars@) is None,
    ensures
        config.is_loaded_from(vars@),
{
    CoreConfig::load_from_env(vars).unwrap()
}

} // verus!
