//! What the mail of the service is configured with.

use vstd::prelude::*;

use crate::utils::envs::{env_value, get_env, Error};

verus! {

#[allow(non_snake_case)]
pub struct CoreConfig {
    // -- This is for hostinger provider
    pub HOSTINGER_SMTP: String,
    pub HOSTINGER_PORT: String,
    pub HOSTINGER_USER: String,
    pub HOSTINGER_PASS: String,
    // -- This is for ionos provider
    pub IONOS_SMTP: String,
    pub IONOS_PORT: String,
    pub IONOS_USER: String,
    pub IONOS_PASS: String,

    // -- This is for dev using gmail smtp
    pub GMAIL_SMTP_HOST: String,
    pub GMAIL_SMTP_PORT: String,
    pub GMAIL_SMTP_USER: String,
    pub GMAIL_SMTP_PASS: String,
}

/// The first of the variables that `CoreConfig` is made of, in the order of its
/// fields, that the environment lacks.
pub open spec fn first_missing(vars: Seq<(String, String)>) -> Option<Seq<char>> {
    if env_value(vars, "HOSTINGER_SMTP"@) is None {
        Some("HOSTINGER_SMTP"@)
    } else if env_value(vars, "HOSTINGER_PORT"@) is None {
        Some("HOSTINGER_PORT"@)
    } else if env_value(vars, "HOSTINGER_USER"@) is None {
        Some("HOSTINGER_USER"@)
    } else if env_value(vars, "HOSTINGER_PASS"@) is None {
        Some("HOSTINGER_PASS"@)
    } else if env_value(vars, "IONOS_SMTP"@) is None {
        Some("IONOS_SMTP"@)
    } else if env_value(vars, "IONOS_PORT"@) is None {
        Some("IONOS_PORT"@)
    } else if env_value(vars, "IONOS_USER"@) is None {
        Some("IONOS_USER"@)
    } else if env_value(vars, "IONOS_PASS"@) is None {
        Some("IONOS_PASS"@)
    } else if env_value(vars, "GMAIL_SMTP_HOST"@) is None {
        Some("GMAIL_SMTP_HOST"@)
    } else if env_value(vars, "GMAIL_SMTP_PORT"@) is None {
        Some("GMAIL_SMTP_PORT"@)
    } else if env_value(vars, "GMAIL_SMTP_USER"@) is None {
        Some("GMAIL_SMTP_USER"@)
    } else if env_value(vars, "GMAIL_SMTP_PASS"@) is None {
        Some("GMAIL_SMTP_PASS"@)
    } else {
        None
    }
}

impl CoreConfig {
    /// Whether this configuration is what `vars` holds.
    pub open spec fn is_loaded_from(&self, vars: Seq<(String, String)>) -> bool {
        &&& env_value(vars, "HOSTINGER_SMTP"@) == Some(self.HOSTINGER_SMTP@)
        &&& env_value(vars, "HOSTINGER_PORT"@) == Some(self.HOSTINGER_PORT@)
        &&& env_value(vars, "HOSTINGER_USER"@) == Some(self.HOSTINGER_USER@)
        &&& env_value(vars, "HOSTINGER_PASS"@) == Some(self.HOSTINGER_PASS@)
        &&& env_value(vars, "IONOS_SMTP"@) == Some(self.IONOS_SMTP@)
        &&& env_value(vars, "IONOS_PORT"@) == Some(self.IONOS_PORT@)
        &&& env_value(vars, "IONOS_USER"@) == Some(self.IONOS_USER@)
        &&& env_value(vars, "IONOS_PASS"@) == Some(self.IONOS_PASS@)
        &&& env_value(vars, "GMAIL_SMTP_HOST"@) == Some(self.GMAIL_SMTP_HOST@)
        &&& env_value(vars, "GMAIL_SMTP_PORT"@) == Some(self.GMAIL_SMTP_PORT@)
        &&& env_value(vars, "GMAIL_SMTP_USER"@) == Some(self.GMAIL_SMTP_USER@)
        &&& env_value(vars, "GMAIL_SMTP_PASS"@) == Some(self.GMAIL_SMTP_PASS@)
    }

    /// The configuration that `vars` holds, or the first variable that is
    /// missing.
    pub fn load_from_env(vars: &Vec<(String, String)>) -> (res: Result<CoreConfig, Error>)
        ensures
            match res {
                Ok(config) => first_missing(vars@) is None && config.is_loaded_from(vars@),
                Err(Error::MissingEnv(name)) => first_missing(vars@) == Some(name@),
            },
    {
        let hostinger_smtp = match get_env(vars, "HOSTINGER_SMTP") {
            Ok(v) => v,
            Err(e) => {
                return Err(e);
            },
        };
        let hostinger_port = match get_env(vars, "HOSTINGER_PORT") {
            Ok(v) => v,
            Err(e) => {
                return Err(e);
            },
        };
        let hostinger_user = match get_env(vars, "HOSTINGER_USER") {
            Ok(v) => v,
            Err(e) => {
                return Err(e);
            },
        };
        let hostinger_pass = match get_env(vars, "HOSTINGER_PASS") {
            Ok(v) => v,
            Err(e) => {
                return Err(e);
            },
        };
        let ionos_smtp = match get_env(vars, "IONOS_SMTP") {
            Ok(v) => v,
            Err(e) => {
                return Err(e);
            },
        };
        let ionos_port = match get_env(vars, "IONOS_PORT") {
            Ok(v) => v,
            Err(e) => {
                return Err(e);
            },
        };
        let ionos_user = match get_env(vars, "IONOS_USER") {
            Ok(v) => v,
            Err(e) => {
                return Err(e);
            },
        };
        let ionos_pass = match get_env(vars, "IONOS_PASS") {
            Ok(v) => v,
            Err(e) => {
                return Err(e);
            },
        };
        let gmail_smtp_host = match get_env(vars, "GMAIL_SMTP_HOST") {
            Ok(v) => v,
            Err(e) => {
                return Err(e);
            },
        };
        let gmail_smtp_port = match get_env(vars, "GMAIL_SMTP_PORT") {
            Ok(v) => v,
            Err(e) => {
                return Err(e);
            },
        };
        let gmail_smtp_user = match get_env(vars, "GMAIL_SMTP_USER") {
            Ok(v) => v,
            Err(e) => {
                return Err(e);
            },
        };
        let gmail_smtp_pass = match get_env(vars, "GMAIL_SMTP_PASS") {
            Ok(v) => v,
            Err(e) => {
                return Err(e);
            },
        };
        Ok(
            CoreConfig {
                HOSTINGER_SMTP: hostinger_smtp,
                HOSTINGER_PORT: hostinger_port,
                HOSTINGER_USER: hostinger_user,
                HOSTINGER_PASS: hostinger_pass,
                IONOS_SMTP: ionos_smtp,
                IONOS_PORT: ionos_port,
                IONOS_USER: ionos_user,
                IONOS_PASS: ionos_pass,
                GMAIL_SMTP_HOST: gmail_smtp_host,
                GMAIL_SMTP_PORT: gmail_smtp_port,
                GMAIL_SMTP_USER: gmail_smtp_user,
                GMAIL_SMTP_PASS: gmail_smtp_pass,
            },
        )
    }
}

/// The configuration that `vars` holds. No mail can be sent without it: the
/// caller sees to it that nothing is missing.
pub fn core_config(vars: &Vec<(String, String)>) -> (config: CoreConfig)
    requires
        first_missing(vars@) is None,
    ensures
        config.is_loaded_from(vars@),
{
    CoreConfig::load_from_env(vars).unwrap()
}

} // verus!
