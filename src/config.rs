//! The config file's settings and where it lives.
use vstd::prelude::*;
use crate::format::ResponseFormat;
use crate::text::join;
use crate::validate::{Lifetime, Prefix};

verus! {

/// Where the config file lives, before `~` is expanded.
pub const DEFAULT_CONFIG_PATH: &'static str = "~/.kilobytetools/config.toml";

/// The settings a config file may hold.
pub struct ConfigFile {
    pub endpoint: Option<String>,
    pub api_key: Option<String>,
    pub response: ResponseConfig,
    pub push: PushConfig,
}

/// Settings on how responses are rendered.
pub struct ResponseConfig {
    pub format: Option<ResponseFormat>,
}

/// Default modifiers of a push.
pub struct PushConfig {
    pub burn: Option<bool>,
    pub lifetime: Option<Lifetime>,
    pub prefix: Option<Prefix>,
    pub private: Option<bool>,
}

impl Default for ResponseConfig {
    fn default() -> (r: ResponseConfig)
        ensures
            r.format is None,
    {
        ResponseConfig { format: None }
    }
}

impl Default for PushConfig {
    fn default() -> (r: PushConfig)
        ensures
            r.burn is None && r.lifetime is None && r.prefix is None && r.private is None,
    {
        PushConfig { burn: None, lifetime: None, prefix: None, private: None }
    }
}

impl Default for ConfigFile {
    fn default() -> (r: ConfigFile)
        ensures
            r.endpoint is None && r.api_key is None,
            r.response.format is None,
            r.push.burn is None && r.push.lifetime is None,
            r.push.prefix is None && r.push.private is None,
    {
        ConfigFile {
            endpoint: None,
            api_key: None,
            response: ResponseConfig::default(),
            push: PushConfig::default(),
        }
    }
}

/// Whether a path names the home directory: `~` alone or followed by `/`.
pub open spec fn is_home_relative(path: Seq<char>) -> bool {
    path.len() > 0 && path[0] == '~' && (path.len() == 1 || path[1] == '/')
}

/// A path with a leading `~` replaced by the home directory; `None` where it
/// needs a home directory and none is known.
pub open spec fn expanded(path: Seq<char>, home: Option<Seq<char>>) -> Option<Seq<char>> {
    if is_home_relative(path) {
        match home {
            Some(h) => Some(h + path.subrange(1, path.len() as int)),
            None => None,
        }
    } else {
        Some(path)
    }
}

/// Replaces a leading `~` of a path by the home directory.
pub fn expand_tilde(path: &str, home: Option<&str>) -> (r: Option<String>)
    ensures
        r matches Some(p) ==> expanded(path@, match home { Some(h) => Some(h@), None => None }) == Some(p@),
        r is None ==> expanded(path@, match home { Some(h) => Some(h@), None => None }) is None,
{
    let n = path.unicode_len();
    if n > 0 && path.get_char(0) == '~' && (n == 1 || path.get_char(1) == '/') {
        match home {
            Some(h) => Some(join(h, path.substring_char(1, n))),
            None => None,
        }
    } else {
        Some(String::from_str(path))
    }
}

/// What follows the endpoint line in a freshly written config file.
pub const CONFIG_TAIL: &'static str = "\"\n\n[response]\nformat = \"text/plain\"  # or \"text/javascript\"\n\n[scratch-push]\nlifetime = \"5m\"  # or \"120s\", \"2m\", \"1h\", ...\n# burn = false\n# private = true\n";

/// The text of a minimal config file for an API key and endpoint.
pub open spec fn config_text_of(api_key: Seq<char>, endpoint: Seq<char>) -> Seq<char> {
    "api_key = \""@ + api_key + "\"\nendpoint = \""@ + endpoint + CONFIG_TAIL@
}

/// A minimal config file for an API key and endpoint, with commented defaults.
pub fn config_text(api_key: &str, endpoint: &str) -> (r: String)
    ensures
        r@ == config_text_of(api_key@, endpoint@),
{
    let mut r = join("api_key = \"", api_key);
    r.append("\"\nendpoint = \"");
    r.append(endpoint);
    r.append(CONFIG_TAIL);
    r
}

} // verus!
