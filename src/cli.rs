//! Decisions of the command-line layer: which command a word names,
//! how options from the command line and the config file combine,
//! and which required settings are missing.
use vstd::prelude::*;
use crate::api::{accept_headers, pull_request, ClientOpts};
use crate::format::ResponseFormat;
use crate::http::has_pair;
use crate::text::text_eq;

verus! {

/// Options that every command shares.
pub struct CommonOptions {
    pub api_key: Option<String>,
    pub endpoint: Option<String>,
    pub response_format: Option<ResponseFormat>,
}

impl Default for CommonOptions {
    fn default() -> (r: CommonOptions)
        ensures
            r.api_key is None,
            r.endpoint is None,
            r.response_format is None,
    {
        CommonOptions { api_key: None, endpoint: None, response_format: None }
    }
}

/// Options of `pull` as given on the command line.
pub struct PullArgs {
    pub id: Option<String>,
    pub anon: Option<bool>,
    pub pw: Option<String>,
}

/// Options of `rm` as given on the command line.
pub struct DeleteArgs {
    pub id: Option<String>,
}

/// Options of `bootstrap` as given on the command line.
pub struct BootstrapArgs {
    pub stdout: bool,
}

/// The commands, by the word that names each.
#[derive(Clone, Copy, Debug, PartialEq, Eq, Structural)]
pub enum CommandName {
    Push,
    Pull,
    List,
    Delete,
    Stats,
    Bootstrap,
}

/// The command a word names, if any.
pub open spec fn command_of(s: Seq<char>) -> Option<CommandName> {
    if s == "push"@ {
        Some(CommandName::Push)
    } else if s == "pull"@ {
        Some(CommandName::Pull)
    } else if s == "ls"@ {
        Some(CommandName::List)
    } else if s == "rm"@ {
        Some(CommandName::Delete)
    } else if s == "stats"@ {
        Some(CommandName::Stats)
    } else if s == "bootstrap"@ {
        Some(CommandName::Bootstrap)
    } else {
        None
    }
}

impl CommandName {
    /// Reads a command word; `None` where it names no command.
    pub fn from_name(s: &str) -> (r: Option<CommandName>)
        ensures
            r == command_of(s@),
    {
        if text_eq(s, "push") {
            Some(CommandName::Push)
        } else if text_eq(s, "pull") {
            Some(CommandName::Pull)
        } else if text_eq(s, "ls") {
            Some(CommandName::List)
        } else if text_eq(s, "rm") {
            Some(CommandName::Delete)
        } else if text_eq(s, "stats") {
            Some(CommandName::Stats)
        } else if text_eq(s, "bootstrap") {
            Some(CommandName::Bootstrap)
        } else {
            None
        }
    }
}

/// A setting from the command line where given, else the one from the config file.
pub fn prefer<T>(cli: Option<T>, file: Option<T>) -> (r: Option<T>)
    ensures
        r == (if cli is Some { cli } else { file }),
{
    match cli {
        Some(v) => Some(v),
        None => file,
    }
}

/// The API key a pull sends: none where the pull is anonymous.
pub open spec fn pull_key_of(anon: Option<bool>, api_key: Option<String>) -> Option<String> {
    if anon == Some(true) { None } else { api_key }
}

/// The API key a pull sends: none where the pull is anonymous, whatever key is configured.
pub fn pull_api_key(anon: Option<bool>, api_key: Option<String>) -> (r: Option<String>)
    ensures
        r == pull_key_of(anon, api_key),
{
    match anon {
        Some(true) => None,
        _ => api_key,
    }
}

/// An anonymous pull sends no `Authorization` header, whatever key is configured.
pub proof fn lemma_anonymous_pull_unauthorized<W>(
    args: crate::api::PullArgs<W>,
    opts: ClientOpts,
    configured: Option<String>,
)
    requires
        args.api_key == pull_key_of(Some(true), configured),
    ensures
        !has_pair(pull_request(args, opts).headers, "Authorization"@),
{
    reveal_strlit("Accept");
    reveal_strlit("Authorization");
    let h = accept_headers(opts);
    assert(h.len() <= 1);
    if h.len() == 1 {
        assert(h[0].0 == "Accept"@);
        assert(h[0].0.len() != "Authorization"@.len());
    }
}

/// A required setting or argument that is missing.
#[derive(Clone, Copy, Debug, PartialEq, Eq, Structural)]
pub enum Missing {
    /// No API key: `--api-key` or the `api_key` setting.
    ApiKey,
    /// No endpoint: `--endpoint` or the `endpoint` setting.
    Endpoint,
    /// `rm` without an identifier.
    Id,
    /// `bootstrap` would overwrite an existing config file.
    ExistingConfig,
}

/// The first requirement that a resolved command line breaks, if any.
/// An anonymous pull and bootstrap need no API key; bootstrap needs no endpoint,
/// and, unless writing to standard output, no config file may exist yet.
pub open spec fn first_missing(
    has_api_key: bool,
    has_endpoint: bool,
    command: Option<CommandName>,
    anon: Option<bool>,
    has_delete_id: bool,
    bootstrap_stdout: bool,
    config_exists: bool,
) -> Option<Missing> {
    if !has_api_key && !(command == Some(CommandName::Pull) && anon == Some(true))
        && command != Some(CommandName::Bootstrap) {
        Some(Missing::ApiKey)
    } else if !has_endpoint && command is Some && command != Some(CommandName::Bootstrap) {
        Some(Missing::Endpoint)
    } else if command == Some(CommandName::Delete) && !has_delete_id {
        Some(Missing::Id)
    } else if command == Some(CommandName::Bootstrap) && !bootstrap_stdout && config_exists {
        Some(Missing::ExistingConfig)
    } else {
        None
    }
}

/// Checks that a resolved command line has what its command needs.
pub fn validate_args(
    has_api_key: bool,
    has_endpoint: bool,
    command: Option<CommandName>,
    anon: Option<bool>,
    has_delete_id: bool,
    bootstrap_stdout: bool,
    config_exists: bool,
) -> (r: Result<(), Missing>)
    ensures
        r matches Err(m) ==> first_missing(has_api_key, has_endpoint, command, anon,
            has_delete_id, bootstrap_stdout, config_exists) == Some(m),
        r is Ok ==> first_missing(has_api_key, has_endpoint, command, anon,
            has_delete_id, bootstrap_stdout, config_exists) is None,
{
    let is_bootstrap = match command {
        Some(CommandName::Bootstrap) => true,
        _ => false,
    };
    if !has_api_key {
        let anon_pull = match (command, anon) {
            (Some(CommandName::Pull), Some(true)) => true,
            _ => false,
        };
        if !anon_pull && !is_bootstrap {
            return Err(Missing::ApiKey);
        }
    }
    if !has_endpoint && command.is_some() && !is_bootstrap {
        return Err(Missing::Endpoint);
    }
    match command {
        Some(CommandName::Delete) => {
            if !has_delete_id {
                return Err(Missing::Id);
            }
        },
        Some(CommandName::Bootstrap) => {
            if !bootstrap_stdout && config_exists {
                return Err(Missing::ExistingConfig);
            }
        },
        _ => {},
    }
    Ok(())
}

} // verus!
