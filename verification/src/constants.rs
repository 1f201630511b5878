use vstd::prelude::*;

verus! {

/// Where the configuration file is looked for when the caller names no other place.
pub const DEFAULT_CONFIG_PATH: &'static str = "~/.config/scribble/config.json";

/// The storage root that is in force when neither the caller nor the configuration names one.
pub const DEFAULT_STORAGE_PATH: &'static str = "~/.local/share/scribble/snippets";

/// The home-relative directory that holds the catalog's database file.
pub const DATABASE_DIR: &'static str = "~/.local/share/scribble";

/// The name of the catalog's database file inside its directory.
pub const DATABASE_NAME: &'static str = "scribble.db";

} // verus!
