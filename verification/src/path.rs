use crate::config::Config;
use crate::files::{logical_path, physical_path, porcelain_line, File, FileView};
use vstd::prelude::*;
use vstd::string::StringExecFns;

verus! {

/// The records to show, and how: `porcelain` asks for the line that scripts read,
/// `full_path` for the physical path; with neither, the logical path is shown.
#[derive(Debug, PartialEq, Eq)]
pub struct PrintFilesPathsArgs {
    pub files: Vec<File>,
    pub full_path: bool,
    pub porcelain: bool,
}

/// The line that shows a record. Where both flags are set, `porcelain` decides.
pub open spec fn shown(file: FileView, full_path: bool, porcelain: bool) -> Seq<char> {
    if porcelain {
        porcelain_line(file)
    } else if full_path {
        physical_path(file)
    } else {
        logical_path(file)
    }
}

/// The lines that show the records, one for each, in their order.
pub fn print_files_paths(args: PrintFilesPathsArgs) -> (lines: Vec<String>)
    ensures
        lines@.len() == args.files@.len(),
        forall|i: int|
            0 <= i < lines@.len() ==> (#[trigger] lines@[i])@ == shown(
                args.files@[i]@,
                args.full_path,
                args.porcelain,
            ),
{
    let n: usize = args.files.len();
    let mut lines: Vec<String> = Vec::new();
    let mut i: usize = 0;
    while i < n
        invariant
            n == args.files@.len(),
            i <= n,
            lines@.len() == i,
            forall|k: int|
                0 <= k < i ==> (#[trigger] lines@[k])@ == shown(
                    args.files@[k]@,
                    args.full_path,
                    args.porcelain,
                ),
        decreases n - i,
    {
        let file = &args.files[i];
        let line = if args.porcelain {
            file.porcelain()
        } else if args.full_path {
            file.full_path()
        } else {
            file.path()
        };
        lines.push(line);
        i = i + 1;
    }
    lines
}

/// The path begins with a tilde that stands for a home directory: one that is the whole
/// path, or that a separator follows.
pub open spec fn tilde_led(path: Seq<char>) -> bool {
    &&& path.len() > 0
    &&& path[0] == '~'
    &&& (path.len() == 1 || path[1] == '/' || path[1] == '\\')
}

/// `out` is a tilde expansion of `path`: the path itself, or, where a tilde leads it, some
/// home directory followed by what stands behind the tilde.
pub open spec fn expansion_of(path: Seq<char>, out: Seq<char>) -> bool {
    ||| out == path
    ||| tilde_led(path) && exists|home: Seq<char>| out == home + path.skip(1)
}

/// Calls `shellexpand::tilde`. That function leaves alone a path that no tilde leads, and
/// one whose tilde is followed by anything but a separator. In a path that a tilde leads
/// it puts the home directory of the caller in the tilde's place, if it can learn it, and
/// leaves the path alone if it cannot. Which directory that is depends on the machine, so
/// the contract says only that the result is some expansion.
#[verifier::external_body]
pub(crate) fn expand_tilde(path: &str) -> (out: String)
    ensures
        expansion_of(path@, out@),
{
    shellexpand::tilde(path).into_owned()
}

/// The path as the configured storage root and the record's logical path give it, before
/// any tilde is expanded.
pub open spec fn configured_path(storage_dir: Seq<char>, file: FileView) -> Seq<char> {
    storage_dir + seq!['/'] + logical_path(file)
}

/// The path of the record's file on disk: its logical path under the configured storage
/// root, with a leading tilde expanded to the caller's home directory.
pub fn get_file_path(config: &Config, file: File) -> (out: String)
    ensures
        expansion_of(configured_path(config.storage_dir@, file@), out@),
{
    let path = file.path();
    let mut full_path = config.storage_dir.clone();
    proof {
        reveal_strlit("/");
    }
    full_path.append("/");
    full_path.append(path.as_str());
    assert(full_path@ =~= configured_path(config.storage_dir@, file@));
    expand_tilde(full_path.as_str())
}

} // verus!
