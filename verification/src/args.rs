use crate::config::Config;
use crate::constants::DEFAULT_CONFIG_PATH;
use vstd::prelude::*;
use vstd::string::StringExecFns;

verus! {

/// What one invocation supplied, as the argument source found it: each value that was
/// given, and the two display flags.
#[derive(Debug, PartialEq, Eq)]
pub struct Matches {
    pub config: Option<String>,
    pub storage_dir: Option<String>,
    pub directory: Option<String>,
    pub filename: Option<String>,
    pub query: Option<String>,
    pub full_path: bool,
    pub porcelain: bool,
}

#[derive(Debug, PartialEq, Eq)]
pub struct ListArgs {
    pub directory: Option<String>,
    pub storage_dir: String,
}

#[derive(Debug, PartialEq, Eq)]
pub struct CreateArgs {
    pub directory: Option<String>,
    pub filename: String,
    pub storage_dir: String,
}

#[derive(Debug, PartialEq, Eq)]
pub struct GetFileArgs {
    pub directory: Option<String>,
    pub filename: String,
    pub storage_dir: String,
}

#[derive(Debug, PartialEq, Eq)]
pub struct SearchArgs {
    pub directory: Option<String>,
    pub query: String,
    pub storage_dir: String,
}

#[derive(Debug, PartialEq, Eq)]
pub struct DeleteArgs {
    pub directory: Option<String>,
    pub filename: String,
    pub storage_dir: String,
}

/// The text of an optional value.
pub open spec fn text_of(value: Option<String>) -> Option<Seq<char>> {
    match value {
        Some(text) => Some(text@),
        None => None,
    }
}

/// The storage root that an invocation works on: the one it names, else the configured one.
pub open spec fn chosen_storage_dir(args: Matches, config: Config) -> Seq<char> {
    match args.storage_dir {
        Some(storage_dir) => storage_dir@,
        None => config.storage_dir@,
    }
}

/// The place where an invocation has its configuration looked for: the one it names, else
/// the built-in place.
pub open spec fn chosen_config_path(args: Matches) -> Seq<char> {
    match args.config {
        Some(path) => path@,
        None => DEFAULT_CONFIG_PATH@,
    }
}

/// The message that reports a missing file name.
pub open spec fn missing_filename() -> Seq<char> {
    "a file name is required"@
}

/// The message that reports a missing query.
pub open spec fn missing_query() -> Seq<char> {
    "a query is required"@
}

/// A copy of an optional text.
pub fn copy_of(value: &Option<String>) -> (out: Option<String>)
    ensures
        text_of(out) == text_of(*value),
{
    match value {
        Some(text) => Some(text.clone()),
        None => None,
    }
}

/// The storage root that the invocation works on.
pub fn get_storage_dir(args: &Matches, config: &Config) -> (out: String)
    ensures
        out@ == chosen_storage_dir(*args, *config),
{
    match &args.storage_dir {
        Some(storage_dir) => storage_dir.clone(),
        None => config.storage_dir.clone(),
    }
}

/// The place where the invocation has its configuration looked for, as it was written.
pub fn get_config_path(args: &Matches) -> (out: String)
    ensures
        out@ == chosen_config_path(*args),
{
    match &args.config {
        Some(path) => path.clone(),
        None => String::from_str(DEFAULT_CONFIG_PATH),
    }
}

impl ListArgs {
    /// The listing that the invocation asks for.
    pub fn from_matches(args: &Matches, config: &Config) -> (out: Result<ListArgs, String>)
        ensures
            out matches Ok(list) && text_of(list.directory) == text_of(args.directory)
                && list.storage_dir@ == chosen_storage_dir(*args, *config),
    {
        Ok(
            ListArgs {
                directory: copy_of(&args.directory),
                storage_dir: get_storage_dir(args, config),
            },
        )
    }
}

impl CreateArgs {
    /// The creation that the invocation asks for. It takes a file name.
    pub fn from_matches(args: &Matches, config: &Config) -> (out: Result<CreateArgs, String>)
        ensures
            match out {
                Ok(create) => {
                    &&& text_of(args.filename) == Some(create.filename@)
                    &&& text_of(create.directory) == text_of(args.directory)
                    &&& create.storage_dir@ == chosen_storage_dir(*args, *config)
                },
                Err(message) => args.filename is None && message@ == missing_filename(),
            },
    {
        match &args.filename {
            Some(filename) => Ok(
                CreateArgs {
                    directory: copy_of(&args.directory),
                    filename: filename.clone(),
                    storage_dir: get_storage_dir(args, config),
                },
            ),
            None => Err(String::from_str("a file name is required")),
        }
    }
}

impl GetFileArgs {
    /// The lookup that the invocation asks for. It takes a file name.
    pub fn from_matches(args: &Matches, config: &Config) -> (out: Result<GetFileArgs, String>)
        ensures
            match out {
                Ok(get) => {
                    &&& text_of(args.filename) == Some(get.filename@)
                    &&& text_of(get.directory) == text_of(args.directory)
                    &&& get.storage_dir@ == chosen_storage_dir(*args, *config)
                },
                Err(message) => args.filename is None && message@ == missing_filename(),
            },
    {
        match &args.filename {
            Some(filename) => Ok(
                GetFileArgs {
                    directory: copy_of(&args.directory),
                    filename: filename.clone(),
                    storage_dir: get_storage_dir(args, config),
                },
            ),
            None => Err(String::from_str("a file name is required")),
        }
    }
}

impl SearchArgs {
    /// The search that the invocation asks for. It takes a query.
    pub fn from_matches(args: &Matches, config: &Config) -> (out: Result<SearchArgs, String>)
        ensures
            match out {
                Ok(search) => {
                    &&& text_of(args.query) == Some(search.query@)
                    &&& text_of(search.directory) == text_of(args.directory)
                    &&& search.storage_dir@ == chosen_storage_dir(*args, *config)
                },
                Err(message) => args.query is None && message@ == missing_query(),
            },
    {
        match &args.query {
            Some(query) => Ok(
                SearchArgs {
                    directory: copy_of(&args.directory),
                    query: query.clone(),
                    storage_dir: get_storage_dir(args, config),
                },
            ),
            None => Err(String::from_str("a query is required")),
        }
    }
}

impl DeleteArgs {
    /// The deletion that the invocation asks for. It takes a file name.
    pub fn from_matches(args: &Matches, config: &Config) -> (out: Result<DeleteArgs, String>)
        ensures
            match out {
                Ok(delete) => {
                    &&& text_of(args.filename) == Some(delete.filename@)
                    &&& text_of(delete.directory) == text_of(args.directory)
                    &&& delete.storage_dir@ == chosen_storage_dir(*args, *config)
                },
                Err(message) => args.filename is None && message@ == missing_filename(),
            },
    {
        match &args.filename {
            Some(filename) => Ok(
                DeleteArgs {
                    directory: copy_of(&args.directory),
                    filename: filename.clone(),
                    storage_dir: get_storage_dir(args, config),
                },
            ),
            None => Err(String::from_str("a file name is required")),
        }
    }
}

} // verus!
