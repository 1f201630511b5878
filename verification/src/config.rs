use crate::args::{chosen_config_path, get_config_path, Matches};
use crate::constants::DEFAULT_STORAGE_PATH;
use crate::path::{expand_tilde, expansion_of};
use vstd::prelude::*;
use vstd::string::StringExecFns;

verus! {

/// What the configuration source supplies: the storage root to use when the caller names
/// none.
#[derive(Debug, PartialEq, Eq)]
pub struct Config {
    pub storage_dir: String,
}

/// The built-in storage root.
pub fn default_storage_dir() -> (out: String)
    ensures
        out@ == DEFAULT_STORAGE_PATH@,
{
    String::from_str(DEFAULT_STORAGE_PATH)
}

impl Default for Config {
    /// The built-in configuration.
    fn default() -> (out: Config)
        ensures
            out.storage_dir@ == DEFAULT_STORAGE_PATH@,
    {
        Config { storage_dir: default_storage_dir() }
    }
}

/// The storage root of the configuration that is in force: that of the loaded one, or the
/// built-in root where none could be loaded.
pub open spec fn effective_storage_dir(loaded: Option<Config>) -> Seq<char> {
    match loaded {
        Some(config) => config.storage_dir@,
        None => DEFAULT_STORAGE_PATH@,
    }
}

/// The configuration that is in force. A configuration that could not be loaded is no
/// failure: the built-in one takes its place.
pub fn get_config(loaded: Option<Config>) -> (out: Config)
    ensures
        out.storage_dir@ == effective_storage_dir(loaded),
{
    match loaded {
        Some(config) => config,
        None => Config::default(),
    }
}

/// The file that the invocation's configuration is read from: the place it names, or the
/// built-in place, with a leading tilde expanded to the caller's home directory.
pub fn config_file(args: &Matches) -> (out: String)
    ensures
        expansion_of(chosen_config_path(*args), out@),
{
    let path = get_config_path(args);
    expand_tilde(path.as_str())
}

/// What is said when no configuration was found at a place.
pub open spec fn fallback_text(config_path: Seq<char>) -> Seq<char> {
    "Info: No config found at "@ + config_path + ", using default config"@
}

/// The notice that no configuration was found at `config_path` and that the built-in one
/// is in force. It is information for the user, no failure.
pub fn fallback_notice(config_path: &str) -> (out: String)
    ensures
        out@ == fallback_text(config_path@),
{
    let mut out = String::from_str("Info: No config found at ");
    out.append(config_path);
    out.append(", using default config");
    out
}

} // verus!
