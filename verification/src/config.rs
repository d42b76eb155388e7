//! Credentials for the scrobble service and the resolution chain that
//! produces them: a persisted file first, then the process environment,
//! then an on-disk ".env"-style file merged into it, then interactive
//! prompts. The first source that yields all required fields wins, and only
//! the interactive path triggers a write-back of the file.
//!
//! The library decides; reading the file, the environment and the terminal
//! is the surrounding process's job, which hands the outcome of each source
//! here as plain values.

use vstd::prelude::*;
use crate::spec_default_client_id;
use crate::default_client_id;

verus! {

/// The resolved credentials: the service username and API key, and the
/// client identifier under which the presence is published.
#[derive(Debug, Clone)]
pub struct Config {
    pub username: String,
    pub api_key: String,
    pub client_id: String,
}

/// What one environment-like source yields for the three lookup keys;
/// `None` stands for a variable that the source does not set.
#[derive(Debug, Clone)]
pub struct EnvVars {
    pub username: Option<String>,
    pub api_key: Option<String>,
    pub client_id: Option<String>,
}

impl EnvVars {
    /// The source sets all three variables.
    pub open spec fn is_complete(self) -> bool {
        &&& self.username is Some
        &&& self.api_key is Some
        &&& self.client_id is Some
    }
}

/// The process environment with the ".env" file's entries filled in for
/// the variables the environment itself leaves unset.
pub open spec fn spec_merge_env(env: EnvVars, dotenv: EnvVars) -> EnvVars {
    EnvVars {
        username: if env.username is Some {
            env.username
        } else {
            dotenv.username
        },
        api_key: if env.api_key is Some {
            env.api_key
        } else {
            dotenv.api_key
        },
        client_id: if env.client_id is Some {
            env.client_id
        } else {
            dotenv.client_id
        },
    }
}

/// Fills the ".env" file's entries in for the variables the process
/// environment leaves unset; a variable set in both keeps the
/// environment's value.
pub fn merge_env(env: EnvVars, dotenv: EnvVars) -> (r: EnvVars)
    ensures
        r == spec_merge_env(env, dotenv),
{
    EnvVars {
        username: match env.username {
            Some(u) => Some(u),
            None => dotenv.username,
        },
        api_key: match env.api_key {
            Some(k) => Some(k),
            None => dotenv.api_key,
        },
        client_id: match env.client_id {
            Some(c) => Some(c),
            None => dotenv.client_id,
        },
    }
}

/// The credentials the non-interactive sources yield: the persisted file
/// when one exists, else the merged environment when it sets all three
/// variables, else nothing.
pub open spec fn spec_resolve_non_interactive(
    file: Option<Config>,
    env: EnvVars,
    dotenv: EnvVars,
) -> Option<Config> {
    if file is Some {
        file
    } else {
        let merged = spec_merge_env(env, dotenv);
        if merged.is_complete() {
            Some(Config {
                username: merged.username.unwrap(),
                api_key: merged.api_key.unwrap(),
                client_id: merged.client_id.unwrap(),
            })
        } else {
            None
        }
    }
}

/// Resolves credentials from the non-interactive sources, in priority
/// order: the persisted file's contents win outright; otherwise the
/// process environment, with the ".env" file filling unset variables,
/// must yield all three values. `None` means only an interactive prompt
/// is left.
pub fn resolve_non_interactive(file: Option<Config>, env: EnvVars, dotenv: EnvVars) -> (r: Option<
    Config,
>)
    ensures
        r == spec_resolve_non_interactive(file, env, dotenv),
{
    match file {
        Some(config) => Some(config),
        None => {
            let merged = merge_env(env, dotenv);
            match (merged.username, merged.api_key, merged.client_id) {
                (Some(username), Some(api_key), Some(client_id)) => Some(
                    Config { username, api_key, client_id },
                ),
                _ => None,
            }
        },
    }
}

/// The credentials built from interactive answers: an empty client
/// identifier is coerced to the built-in default rather than stored
/// literally empty.
pub open spec fn spec_resolve_from_prompt(
    username: Seq<char>,
    api_key: Seq<char>,
    client_id: Seq<char>,
) -> (Seq<char>, Seq<char>, Seq<char>) {
    (
        username,
        api_key,
        if client_id.len() == 0 {
            spec_default_client_id()
        } else {
            client_id
        },
    )
}

/// Builds the credentials from the three interactive answers. Unlike the
/// other sources, this one is followed by a write-back of the file (a
/// no-op when the file has appeared meanwhile).
pub fn resolve_from_prompt(username: String, api_key: String, client_id: String) -> (r: Config)
    ensures
        (r.username@, r.api_key@, r.client_id@) == spec_resolve_from_prompt(
            username@,
            api_key@,
            client_id@,
        ),
{
    let client_id = if client_id.as_str().is_empty() {
        default_client_id().to_owned()
    } else {
        client_id
    };
    Config { username, api_key, client_id }
}

/// The client identifier the publisher connects under: the configured one,
/// or the built-in default when the configured one is empty.
pub open spec fn spec_effective_client_id(config: Config) -> Seq<char> {
    if config.client_id@.len() == 0 {
        spec_default_client_id()
    } else {
        config.client_id@
    }
}

/// Returns the client identifier the publisher connects under.
pub fn effective_client_id(config: &Config) -> (r: &str)
    ensures
        r@ == spec_effective_client_id(*config),
{
    if config.client_id.as_str().is_empty() {
        default_client_id()
    } else {
        config.client_id.as_str()
    }
}

} // verus!
