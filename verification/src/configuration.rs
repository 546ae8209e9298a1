//! What the service is configured with, as plain values.

use vstd::prelude::*;
use vstd::string::*;

verus! {

/// Where the service listens.
#[derive(Debug, PartialEq, Eq)]
pub struct ApplicationConfig {
    pub host: String,
    pub port: u16,
}

/// How tokens are issued: for how many seconds, and signed with what.
#[derive(Debug, PartialEq, Eq)]
pub struct SecurityConfig {
    pub token_expire_interval: usize,
    pub token_secret: String,
}

/// The surroundings that the service runs in. Each has a configuration file of
/// its name.
#[derive(Debug, Clone, Copy, PartialEq, Eq, Structural)]
pub enum Environment {
    Local,
    Production,
}

/// What `str::to_lowercase` returns for a text: each character replaced by
/// its lower-case form as Unicode defines it.
pub uninterp spec fn lowercase(text: Seq<char>) -> Seq<char>;

/// Calls `str::to_lowercase`. The contract claims that the result is the one
/// named [`lowercase`], and no more of it.
#[verifier::external_body]
fn to_lowercase(text: &str) -> (lowered: String)
    ensures
        lowered@ == lowercase(text@),
{
    text.to_lowercase()
}

/// What is said of a name that is no environment's.
pub open spec fn unsupported_environment(name: Seq<char>) -> Seq<char> {
    name + " is not a supported environment. Use either `local` or `production`."@
}

/// The environment that a name in lower case stands for, or what is said of
/// the name where it stands for none.
pub open spec fn environment_named(lowered: Seq<char>) -> Result<Environment, Seq<char>> {
    if lowered == "local"@ {
        Ok(Environment::Local)
    } else if lowered == "production"@ {
        Ok(Environment::Production)
    } else {
        Err(unsupported_environment(lowered))
    }
}

impl Environment {
    /// The environment's name.
    pub open spec fn name(self) -> Seq<char> {
        match self {
            Environment::Local => "local"@,
            Environment::Production => "production"@,
        }
    }

    /// The environment's name, as its configuration file has it.
    pub fn as_str(&self) -> (name: &'static str)
        ensures
            name@ == self.name(),
    {
        match self {
            Environment::Local => "local",
            Environment::Production => "production",
        }
    }

    /// The environment that a name stands for once it is in lower case.
    pub fn from_lowercase(lowered: String) -> (r: Result<Environment, String>)
        ensures
            match r {
                Ok(environment) => environment_named(lowered@) == Ok::<Environment, Seq<char>>(
                    environment,
                ),
                Err(said) => environment_named(lowered@) == Err::<Environment, Seq<char>>(said@),
            },
    {
        if lowered == "local".to_owned() {
            Ok(Environment::Local)
        } else if lowered == "production".to_owned() {
            Ok(Environment::Production)
        } else {
            let mut said = lowered;
            said.append(" is not a supported environment. Use either `local` or `production`.");
            Err(said)
        }
    }

    /// The environment that a name stands for, whatever its case: `local` or
    /// `production`. For any other name the error says that it is not supported,
    /// with the name in lower case.
    pub fn try_from(s: String) -> (r: Result<Environment, String>)
        ensures
            match r {
                Ok(environment) => environment_named(lowercase(s@)) == Ok::<
                    Environment,
                    Seq<char>,
                >(environment),
                Err(said) => environment_named(lowercase(s@)) == Err::<Environment, Seq<char>>(
                    said@,
                ),
            },
    {
        Environment::from_lowercase(to_lowercase(s.as_str()))
    }
}

/// The environment that the service is started in, from what the variable
/// `APP_ENV` holds: where it is not set, `local`.
pub open spec fn environment_chosen(app_env: Option<Seq<char>>) -> Result<Environment, Seq<char>> {
    match app_env {
        None => Ok(Environment::Local),
        Some(name) => environment_named(lowercase(name)),
    }
}

/// The text of a name that may be there.
pub open spec fn name_view(name: Option<String>) -> Option<Seq<char>> {
    match name {
        Some(text) => Some(text@),
        None => None,
    }
}

impl Environment {
    /// The name of the environment's configuration file.
    pub open spec fn file(self) -> Seq<char> {
        self.name() + ".yaml"@
    }

    /// The name of the file that holds the environment's configuration: the
    /// environment's name and `.yaml`.
    pub fn config_file_name(&self) -> (file: String)
        ensures
            file@ == self.file(),
    {
        let mut file = self.as_str().to_owned();
        file.append(".yaml");
        file
    }

    /// Chooses the environment from what the variable `APP_ENV` holds. Where it
    /// is not set the environment is `local`; a name that stands for no
    /// environment is reported as by [`Self::try_from`].
    pub fn from_app_env(app_env: Option<String>) -> (r: Result<Environment, String>)
        ensures
            match r {
                Ok(environment) => environment_chosen(name_view(app_env)) == Ok::<
                    Environment,
                    Seq<char>,
                >(environment),
                Err(said) => environment_chosen(name_view(app_env)) == Err::<
                    Environment,
                    Seq<char>,
                >(said@),
            },
    {
        match app_env {
            None => Ok(Environment::Local),
            Some(name) => Environment::try_from(name),
        }
    }
}

/// An environment's name stands for that environment.
pub proof fn lemma_environment_name_round_trip(environment: Environment)
    ensures
        environment_named(environment.name()) == Ok::<Environment, Seq<char>>(environment),
{
    reveal_strlit("local");
    reveal_strlit("production");
    assert("local"@.len() != "production"@.len());
}

} // verus!
