use crate::args::{text_of, CreateArgs, DeleteArgs, GetFileArgs, ListArgs, SearchArgs};
use crate::catalog::{consistent, created, deleted, listed, looked_up, searched, FileRepository};
use crate::config::Config;
use crate::error::{Error, ErrorView};
use crate::files::{views, File, FileView};
use crate::path::{configured_path, expansion_of, get_file_path};
use vstd::prelude::*;

verus! {

/// What the disk still owes to a change of the catalog.
#[derive(Debug, Clone, Copy, PartialEq, Eq, Structural)]
pub enum Effect {
    /// The record's file is to exist.
    EnsureExists,
    /// The record's file is to be absent.
    EnsureAbsent,
}

/// A change of the catalog that was made, with the change of the disk that has to follow
/// it: the record, the path of its file, and what is to hold of that path.
#[derive(Debug, PartialEq, Eq)]
pub struct Pending {
    pub file: File,
    pub path: String,
    pub effect: Effect,
}

/// What the disk reported of the change it was asked for: success, or what went wrong.
pub open spec fn disk_report(outcome: Result<(), String>) -> Option<Seq<char>> {
    match outcome {
        Ok(_) => None,
        Err(detail) => Some(detail@),
    }
}

/// How a pending change ends: with its record where the disk followed, and as a partial
/// synchronisation, with the path and the disk's report, where it did not.
pub open spec fn settled(
    file: FileView,
    path: Seq<char>,
    report: Option<Seq<char>>,
) -> Result<FileView, ErrorView> {
    match report {
        None => Ok(file),
        Some(detail) => Err(ErrorView::PartialSync { path, detail }),
    }
}

/// Puts a record into the catalog and says what the disk owes to it: the record's file,
/// under the configured storage root, is to exist. Where the catalog refuses the record
/// nothing is pending, so the disk is not touched, and the catalog stays as it was.
pub fn create_snippet(repository: &mut FileRepository, args: CreateArgs, config: &Config) -> (out:
    Result<Pending, Error>)
    ensures
        consistent(old(repository)@),
        consistent(final(repository)@),
        match out {
            Ok(pending) => {
                &&& created(
                    old(repository)@,
                    text_of(args.directory),
                    args.filename@,
                    args.storage_dir@,
                ) == Ok::<(Seq<FileView>, FileView), ErrorView>(
                    (final(repository)@, pending.file@),
                )
                &&& pending.effect == Effect::EnsureExists
                &&& expansion_of(
                    configured_path(config.storage_dir@, pending.file@),
                    pending.path@,
                )
            },
            Err(error) => {
                &&& final(repository)@ == old(repository)@
                &&& created(
                    old(repository)@,
                    text_of(args.directory),
                    args.filename@,
                    args.storage_dir@,
                ) == Err::<(Seq<FileView>, FileView), ErrorView>(error@)
            },
        },
{
    match repository.create(args) {
        Ok(file) => {
            let path = get_file_path(config, file.clone());
            Ok(Pending { file, path, effect: Effect::EnsureExists })
        },
        Err(error) => Err(error),
    }
}

/// Takes a record out of the catalog and says what the disk owes to it: the record's file,
/// under the configured storage root, is to be absent. Where the catalog holds no such
/// record nothing is pending, so the disk is not touched, and the catalog stays as it was.
pub fn delete_snippet(repository: &mut FileRepository, args: DeleteArgs, config: &Config) -> (out:
    Result<Pending, Error>)
    ensures
        consistent(old(repository)@),
        consistent(final(repository)@),
        match out {
            Ok(pending) => {
                &&& deleted(
                    old(repository)@,
                    text_of(args.directory),
                    args.filename@,
                    args.storage_dir@,
                ) == Ok::<(Seq<FileView>, FileView), ErrorView>(
                    (final(repository)@, pending.file@),
                )
                &&& pending.effect == Effect::EnsureAbsent
                &&& expansion_of(
                    configured_path(config.storage_dir@, pending.file@),
                    pending.path@,
                )
            },
            Err(error) => {
                &&& final(repository)@ == old(repository)@
                &&& deleted(
                    old(repository)@,
                    text_of(args.directory),
                    args.filename@,
                    args.storage_dir@,
                ) == Err::<(Seq<FileView>, FileView), ErrorView>(error@)
            },
        },
{
    match repository.delete(args) {
        Ok(file) => {
            let path = get_file_path(config, file.clone());
            Ok(Pending { file, path, effect: Effect::EnsureAbsent })
        },
        Err(error) => Err(error),
    }
}

/// Ends a pending change with what the disk reported of it. Where the disk followed, the
/// operation has succeeded and gives its record. Where it did not, catalog and disk
/// disagree: the error names the path and carries the disk's report.
pub fn settle(pending: Pending, outcome: Result<(), String>) -> (out: Result<File, Error>)
    ensures
        match out {
            Ok(file) => settled(pending.file@, pending.path@, disk_report(outcome)) == Ok::<
                FileView,
                ErrorView,
            >(file@),
            Err(error) => settled(pending.file@, pending.path@, disk_report(outcome)) == Err::<
                FileView,
                ErrorView,
            >(error@),
        },
{
    match outcome {
        Ok(_) => Ok(pending.file),
        Err(detail) => Err(Error::PartialSync { path: pending.path, detail }),
    }
}

/// The records of a storage root, or of one directory in it. The disk has no part in this.
pub fn list_snippets(repository: &FileRepository, args: ListArgs) -> (out: Vec<File>)
    ensures
        views(out@) == listed(repository@, args.storage_dir@, text_of(args.directory)),
{
    repository.list(args)
}

/// The records whose file name holds the query. The disk has no part in this.
pub fn search_snippets(repository: &FileRepository, args: SearchArgs) -> (out: Vec<File>)
    ensures
        views(out@) == searched(
            repository@,
            args.query@,
            text_of(args.directory),
            args.storage_dir@,
        ),
{
    repository.search(args)
}

/// The record at a place. The disk has no part in this.
pub fn get_snippet(repository: &FileRepository, args: GetFileArgs) -> (out: Result<File, Error>)
    ensures
        match out {
            Ok(file) => looked_up(
                repository@,
                text_of(args.directory),
                args.filename@,
                args.storage_dir@,
            ) == Ok::<FileView, ErrorView>(file@),
            Err(error) => looked_up(
                repository@,
                text_of(args.directory),
                args.filename@,
                args.storage_dir@,
            ) == Err::<FileView, ErrorView>(error@),
        },
{
    repository.get_file(args)
}

} // verus!
