use crate::args::{text_of, CreateArgs, DeleteArgs, GetFileArgs, ListArgs, SearchArgs};
use crate::error::{Error, ErrorView};
use crate::files::{views, File, FileView};
use crate::text::{contains, is_substring};
use vstd::prelude::*;
use vstd::string::StringExecFns;

verus! {

/// Where a record stands: its directory and file name, inside one storage root.
pub ghost struct Place {
    pub directory: Seq<char>,
    pub filename: Seq<char>,
    pub storage_dir: Seq<char>,
}

/// The place of a record.
pub open spec fn place_of(file: FileView) -> Place {
    Place { directory: file.directory, filename: file.filename, storage_dir: file.storage_dir }
}

/// The directory that a request means: the one it names, or the root of the storage where
/// it names none.
pub open spec fn normalized(directory: Option<Seq<char>>) -> Seq<char> {
    match directory {
        Some(directory) => directory,
        None => Seq::empty(),
    }
}

/// The place that a request names.
pub open spec fn place(
    directory: Option<Seq<char>>,
    filename: Seq<char>,
    storage_dir: Seq<char>,
) -> Place {
    Place { directory: normalized(directory), filename, storage_dir }
}

/// No two records share an identifier, and no two stand at one place.
pub open spec fn consistent(rows: Seq<FileView>) -> bool {
    forall|i: int, j: int|
        0 <= i < j < rows.len() ==> (#[trigger] rows[i]).id != (#[trigger] rows[j]).id
            && place_of(rows[i]) != place_of(rows[j])
}

/// A record stands at the place.
pub open spec fn holds(rows: Seq<FileView>, at: Place) -> bool {
    exists|i: int| 0 <= i < rows.len() && place_of(#[trigger] rows[i]) == at
}

/// The position of a record that stands at the place, where there is one.
pub open spec fn index_at(rows: Seq<FileView>, at: Place) -> int {
    choose|i: int| 0 <= i < rows.len() && place_of(#[trigger] rows[i]) == at
}

/// The greatest identifier among the records, and 0 where none is greater.
pub open spec fn highest_id(rows: Seq<FileView>) -> int
    decreases rows.len(),
{
    if rows.len() == 0 {
        0
    } else {
        let rest = highest_id(rows.drop_last());
        if rows.last().id > rest {
            rows.last().id
        } else {
            rest
        }
    }
}

/// What is said when every identifier is taken.
pub open spec fn exhausted() -> Seq<char> {
    "no identifier is left"@
}

/// What is said of records that cannot stand in one catalog.
pub open spec fn inconsistent() -> Seq<char> {
    "two entries share an identifier or a place"@
}

/// What a lookup gives: the record at the place, or the report that there is none.
pub open spec fn looked_up(
    rows: Seq<FileView>,
    directory: Option<Seq<char>>,
    filename: Seq<char>,
    storage_dir: Seq<char>,
) -> Result<FileView, ErrorView> {
    let at = place(directory, filename, storage_dir);
    if holds(rows, at) {
        Ok(rows[index_at(rows, at)])
    } else {
        Err(ErrorView::NotFound)
    }
}

/// What a creation gives: the records with the new one at their end, and the new record,
/// whose identifier is one more than the greatest so far. It fails where the place is
/// taken, and where no identifier is left.
pub open spec fn created(
    rows: Seq<FileView>,
    directory: Option<Seq<char>>,
    filename: Seq<char>,
    storage_dir: Seq<char>,
) -> Result<(Seq<FileView>, FileView), ErrorView> {
    let at = place(directory, filename, storage_dir);
    if holds(rows, at) {
        Err(ErrorView::Conflict)
    } else if highest_id(rows) >= i64::MAX {
        Err(ErrorView::Storage { detail: exhausted() })
    } else {
        let file = FileView {
            id: highest_id(rows) + 1,
            directory: at.directory,
            filename: at.filename,
            storage_dir: at.storage_dir,
        };
        Ok((rows.push(file), file))
    }
}

/// What a deletion gives: the records without the one at the place, and that record. It
/// fails where no record stands there.
pub open spec fn deleted(
    rows: Seq<FileView>,
    directory: Option<Seq<char>>,
    filename: Seq<char>,
    storage_dir: Seq<char>,
) -> Result<(Seq<FileView>, FileView), ErrorView> {
    let at = place(directory, filename, storage_dir);
    if holds(rows, at) {
        Ok((rows.remove(index_at(rows, at)), rows[index_at(rows, at)]))
    } else {
        Err(ErrorView::NotFound)
    }
}

/// A record belongs to a listing: it lies in the storage root and, where the listing names
/// a directory, in exactly that directory.
pub open spec fn in_listing(
    file: FileView,
    storage_dir: Seq<char>,
    directory: Option<Seq<char>>,
) -> bool {
    &&& file.storage_dir == storage_dir
    &&& directory matches Some(directory) ==> file.directory == directory
}

/// The records of a listing, in the catalog's order.
pub open spec fn listed(
    rows: Seq<FileView>,
    storage_dir: Seq<char>,
    directory: Option<Seq<char>>,
) -> Seq<FileView> {
    rows.filter(|file: FileView| in_listing(file, storage_dir, directory))
}

/// A record answers a search: it lies in the storage root and in the directory that the
/// search means, and the query stands in its file name.
pub open spec fn in_search(
    file: FileView,
    query: Seq<char>,
    directory: Option<Seq<char>>,
    storage_dir: Seq<char>,
) -> bool {
    &&& file.storage_dir == storage_dir
    &&& file.directory == normalized(directory)
    &&& is_substring(query, file.filename)
}

/// The records that answer a search, in the catalog's order.
pub open spec fn searched(
    rows: Seq<FileView>,
    query: Seq<char>,
    directory: Option<Seq<char>>,
    storage_dir: Seq<char>,
) -> Seq<FileView> {
    rows.filter(|file: FileView| in_search(file, query, directory, storage_dir))
}

/// In consistent records, a record that stands at a place is the one that is found there.
pub proof fn lemma_index_at(rows: Seq<FileView>, at: Place, i: int)
    requires
        consistent(rows),
        0 <= i < rows.len(),
        place_of(rows[i]) == at,
    ensures
        holds(rows, at),
        index_at(rows, at) == i,
{
    let j = index_at(rows, at);
    assert(0 <= j < rows.len() && place_of(rows[j]) == at);
    if j < i {
        assert(place_of(rows[j]) != place_of(rows[i]));
    }
    if i < j {
        assert(place_of(rows[i]) != place_of(rows[j]));
    }
}

/// No identifier is greater than the greatest.
pub proof fn lemma_highest_id(rows: Seq<FileView>, i: int)
    requires
        0 <= i < rows.len(),
    ensures
        rows[i].id <= highest_id(rows),
        0 <= highest_id(rows),
    decreases rows.len(),
{
    if i < rows.len() - 1 {
        lemma_highest_id(rows.drop_last(), i);
    } else if rows.len() > 1 {
        lemma_highest_id(rows.drop_last(), 0);
    }
}

/// A listing of records with one more at their end is the listing of the records, with the
/// new one at its end where it belongs to the listing.
pub proof fn lemma_listed_push(
    rows: Seq<FileView>,
    file: FileView,
    storage_dir: Seq<char>,
    directory: Option<Seq<char>>,
)
    ensures
        listed(rows.push(file), storage_dir, directory) == if in_listing(
            file,
            storage_dir,
            directory,
        ) {
            listed(rows, storage_dir, directory).push(file)
        } else {
            listed(rows, storage_dir, directory)
        },
{
    reveal(Seq::filter);
    assert(rows.push(file).drop_last() =~= rows);
}

/// The same of a search.
pub proof fn lemma_searched_push(
    rows: Seq<FileView>,
    file: FileView,
    query: Seq<char>,
    directory: Option<Seq<char>>,
    storage_dir: Seq<char>,
)
    ensures
        searched(rows.push(file), query, directory, storage_dir) == if in_search(
            file,
            query,
            directory,
            storage_dir,
        ) {
            searched(rows, query, directory, storage_dir).push(file)
        } else {
            searched(rows, query, directory, storage_dir)
        },
{
    reveal(Seq::filter);
    assert(rows.push(file).drop_last() =~= rows);
}

/// Consistent records stay consistent when one of them leaves.
pub proof fn lemma_consistent_remove(rows: Seq<FileView>, i: int)
    requires
        consistent(rows),
        0 <= i < rows.len(),
    ensures
        consistent(rows.remove(i)),
{
    let rest = rows.remove(i);
    assert forall|a: int, b: int| 0 <= a < b < rest.len() implies (#[trigger] rest[a]).id != (
    #[trigger] rest[b]).id && place_of(rest[a]) != place_of(rest[b]) by {
        let a0 = if a < i {
            a
        } else {
            a + 1
        };
        let b0 = if b < i {
            b
        } else {
            b + 1
        };
        assert(rest[a] == rows[a0]);
        assert(rest[b] == rows[b0]);
    }
}

/// Consistent records stay consistent when a record joins them whose place is free and
/// whose identifier is greater than every other.
pub proof fn lemma_consistent_push(rows: Seq<FileView>, file: FileView)
    requires
        consistent(rows),
        !holds(rows, place_of(file)),
        file.id > highest_id(rows),
    ensures
        consistent(rows.push(file)),
{
    let more = rows.push(file);
    assert forall|a: int, b: int| 0 <= a < b < more.len() implies (#[trigger] more[a]).id != (
    #[trigger] more[b]).id && place_of(more[a]) != place_of(more[b]) by {
        if b == rows.len() {
            lemma_highest_id(rows, a);
            assert(more[a] == rows[a]);
            assert(place_of(rows[a]) != place_of(file));
        } else {
            assert(more[a] == rows[a]);
            assert(more[b] == rows[b]);
        }
    }
}

/// A record that was created is the one that a lookup with the same request then finds, and
/// its fields are those of the request, with the root of the storage for a directory that
/// was not named.
pub proof fn lemma_created_is_found(
    rows: Seq<FileView>,
    directory: Option<Seq<char>>,
    filename: Seq<char>,
    storage_dir: Seq<char>,
)
    requires
        consistent(rows),
    ensures
        created(rows, directory, filename, storage_dir) matches Ok(made) ==> {
            &&& consistent(made.0)
            &&& looked_up(made.0, directory, filename, storage_dir) == Ok::<FileView, ErrorView>(
                made.1,
            )
            &&& made.1.directory == normalized(directory)
            &&& made.1.filename == filename
            &&& made.1.storage_dir == storage_dir
        },
{
    if let Ok(made) = created(rows, directory, filename, storage_dir) {
        lemma_consistent_push(rows, made.1);
        lemma_index_at(made.0, place(directory, filename, storage_dir), rows.len() as int);
    }
}

/// Once a creation has succeeded, the same creation fails on what it left, as a conflict.
pub proof fn lemma_created_twice_conflicts(
    rows: Seq<FileView>,
    directory: Option<Seq<char>>,
    filename: Seq<char>,
    storage_dir: Seq<char>,
)
    ensures
        created(rows, directory, filename, storage_dir) matches Ok(made) ==> created(
            made.0,
            directory,
            filename,
            storage_dir,
        ) == Err::<(Seq<FileView>, FileView), ErrorView>(ErrorView::Conflict),
{
    if let Ok(made) = created(rows, directory, filename, storage_dir) {
        assert(place_of(made.0[rows.len() as int]) == place(directory, filename, storage_dir));
    }
}

/// A deletion at a place where no record stands fails, as not found.
pub proof fn lemma_deleted_missing(
    rows: Seq<FileView>,
    directory: Option<Seq<char>>,
    filename: Seq<char>,
    storage_dir: Seq<char>,
)
    requires
        !holds(rows, place(directory, filename, storage_dir)),
    ensures
        deleted(rows, directory, filename, storage_dir) == Err::<
            (Seq<FileView>, FileView),
            ErrorView,
        >(ErrorView::NotFound),
{
}

/// A deletion that follows a creation with the same request gives the created record and
/// leaves the records that were there before the creation.
pub proof fn lemma_created_then_deleted(
    rows: Seq<FileView>,
    directory: Option<Seq<char>>,
    filename: Seq<char>,
    storage_dir: Seq<char>,
)
    requires
        consistent(rows),
    ensures
        created(rows, directory, filename, storage_dir) matches Ok(made) ==> deleted(
            made.0,
            directory,
            filename,
            storage_dir,
        ) == Ok::<(Seq<FileView>, FileView), ErrorView>((rows, made.1)),
{
    if let Ok(made) = created(rows, directory, filename, storage_dir) {
        lemma_created_is_found(rows, directory, filename, storage_dir);
        lemma_index_at(made.0, place(directory, filename, storage_dir), rows.len() as int);
        assert(made.0.remove(rows.len() as int) =~= rows);
    }
}

/// A record that was deleted is not found by a lookup with the same request.
pub proof fn lemma_deleted_is_gone(
    rows: Seq<FileView>,
    directory: Option<Seq<char>>,
    filename: Seq<char>,
    storage_dir: Seq<char>,
)
    requires
        consistent(rows),
    ensures
        deleted(rows, directory, filename, storage_dir) matches Ok(left) ==> {
            &&& consistent(left.0)
            &&& looked_up(left.0, directory, filename, storage_dir) == Err::<
                FileView,
                ErrorView,
            >(ErrorView::NotFound)
        },
{
    let at = place(directory, filename, storage_dir);
    if let Ok(left) = deleted(rows, directory, filename, storage_dir) {
        let i = index_at(rows, at);
        lemma_consistent_remove(rows, i);
        if holds(left.0, at) {
            let k = index_at(left.0, at);
            let k0 = if k < i {
                k
            } else {
                k + 1
            };
            assert(left.0[k] == rows[k0]);
            lemma_index_at(rows, at, k0);
        }
    }
}

/// The directory that a request means.
fn directory_of(directory: &Option<String>) -> (out: String)
    ensures
        out@ == normalized(text_of(*directory)),
{
    match directory {
        Some(directory) => directory.clone(),
        None => String::new(),
    }
}

/// The catalog: the records of every storage root, in the order in which they were made.
#[derive(Debug)]
pub struct FileRepository {
    files: Vec<File>,
}

impl View for FileRepository {
    type V = Seq<FileView>;

    closed spec fn view(&self) -> Seq<FileView> {
        views(self.files@)
    }
}

impl FileRepository {
    #[verifier::type_invariant]
    spec fn well_formed(&self) -> bool {
        consistent(views(self.files@))
    }

    /// The position of the record at a place.
    fn find(&self, directory: &String, filename: &String, storage_dir: &String) -> (out: Option<
        usize,
    >)
        ensures
            match out {
                Some(i) => i < self.files@.len() && place_of(self.files@[i as int]@) == (Place {
                    directory: directory@,
                    filename: filename@,
                    storage_dir: storage_dir@,
                }),
                None => !holds(
                    self@,
                    Place { directory: directory@, filename: filename@, storage_dir: storage_dir@ },
                ),
            },
    {
        let ghost at = Place {
            directory: directory@,
            filename: filename@,
            storage_dir: storage_dir@,
        };
        let n: usize = self.files.len();
        let mut i: usize = 0;
        while i < n
            invariant
                n == self.files@.len(),
                i <= n,
                at == (Place {
                    directory: directory@,
                    filename: filename@,
                    storage_dir: storage_dir@,
                }),
                forall|k: int| 0 <= k < i ==> place_of(#[trigger] views(self.files@)[k]) != at,
            decreases n - i,
        {
            let file = &self.files[i];
            if file.storage_dir == *storage_dir && file.directory == *directory && file.filename
                == *filename {
                return Some(i);
            }
            assert(place_of(views(self.files@)[i as int]) != at);
            i = i + 1;
        }
        None
    }

    /// Whether the records can stand in one catalog.
    fn check(files: &Vec<File>) -> (out: bool)
        ensures
            out == consistent(views(files@)),
    {
        let n: usize = files.len();
        let mut j: usize = 0;
        while j < n
            invariant
                n == files@.len(),
                j <= n,
                forall|a: int, b: int|
                    0 <= a < b < j ==> (#[trigger] views(files@)[a]).id != (#[trigger] views(
                        files@,
                    )[b]).id && place_of(views(files@)[a]) != place_of(views(files@)[b]),
            decreases n - j,
        {
            let mut i: usize = 0;
            while i < j
                invariant
                    n == files@.len(),
                    i <= j < n,
                    forall|a: int|
                        0 <= a < i ==> (#[trigger] views(files@)[a]).id != views(
                            files@,
                        )[j as int].id && place_of(views(files@)[a]) != place_of(
                            views(files@)[j as int],
                        ),
                decreases j - i,
            {
                let one = &files[i];
                let other = &files[j];
                if one.id == other.id || (one.storage_dir == other.storage_dir && one.directory
                    == other.directory && one.filename == other.filename) {
                    assert(views(files@)[i as int].id == views(files@)[j as int].id || place_of(
                        views(files@)[i as int],
                    ) == place_of(views(files@)[j as int]));
                    return false;
                }
                assert(place_of(views(files@)[i as int]) != place_of(views(files@)[j as int]));
                i = i + 1;
            }
            j = j + 1;
        }
        true
    }

    /// The greatest identifier among the records, and 0 where none is greater.
    fn highest(&self) -> (out: i64)
        ensures
            out == highest_id(self@),
    {
        let n: usize = self.files.len();
        let mut out: i64 = 0;
        let mut i: usize = 0;
        while i < n
            invariant
                n == self.files@.len(),
                i <= n,
                out == highest_id(views(self.files@).subrange(0, i as int)),
            decreases n - i,
        {
            let id: i64 = self.files[i].id;
            proof {
                let next = views(self.files@).subrange(0, i + 1);
                assert(next.drop_last() =~= views(self.files@).subrange(0, i as int));
                assert(next.last().id == id);
            }
            if id > out {
                out = id;
            }
            i = i + 1;
        }
        assert(views(self.files@).subrange(0, n as int) =~= views(self.files@));
        out
    }

    /// The catalog of the given records, in their order. Records that share an identifier
    /// or a place are no catalog: they are refused as a failure of the storage.
    pub fn new(files: Vec<File>) -> (out: Result<FileRepository, Error>)
        ensures
            match out {
                Ok(repository) => consistent(views(files@)) && repository@ == views(files@),
                Err(error) => !consistent(views(files@)) && error@ == (ErrorView::Storage {
                    detail: inconsistent(),
                }),
            },
    {
        if FileRepository::check(&files) {
            Ok(FileRepository { files })
        } else {
            Err(
                Error::Storage {
                    detail: String::from_str("two entries share an identifier or a place"),
                },
            )
        }
    }

    /// The records of the catalog, in its order.
    pub fn files(&self) -> (out: Vec<File>)
        ensures
            views(out@) == self@,
            consistent(self@),
    {
        proof {
            use_type_invariant(self);
        }
        let n: usize = self.files.len();
        let mut out: Vec<File> = Vec::new();
        let mut i: usize = 0;
        while i < n
            invariant
                n == self.files@.len(),
                i <= n,
                views(out@) == views(self.files@).subrange(0, i as int),
            decreases n - i,
        {
            let ghost copied = views(out@);
            out.push(self.files[i].clone());
            assert(views(out@) =~= copied.push(self.files@[i as int]@));
            i = i + 1;
            assert(views(out@) =~= views(self.files@).subrange(0, i as int));
        }
        assert(views(out@) =~= views(self.files@));
        out
    }

    /// The records of the storage root that `args` names; where it names a directory, those
    /// of that directory only.
    pub fn list(&self, args: ListArgs) -> (out: Vec<File>)
        ensures
            views(out@) == listed(self@, args.storage_dir@, text_of(args.directory)),
            consistent(self@),
    {
        proof {
            use_type_invariant(self);
        }
        let ghost storage_dir = args.storage_dir@;
        let ghost directory = text_of(args.directory);
        let n: usize = self.files.len();
        let mut out: Vec<File> = Vec::new();
        let mut i: usize = 0;
        assert(views(self.files@).subrange(0, 0) =~= Seq::<FileView>::empty());
        assert(views(out@) =~= Seq::<FileView>::empty());
        assert(listed(Seq::<FileView>::empty(), storage_dir, directory) =~= Seq::<
            FileView,
        >::empty()) by {
            reveal(Seq::filter);
        }
        while i < n
            invariant
                n == self.files@.len(),
                i <= n,
                storage_dir == args.storage_dir@,
                directory == text_of(args.directory),
                views(out@) == listed(
                    views(self.files@).subrange(0, i as int),
                    storage_dir,
                    directory,
                ),
            decreases n - i,
        {
            let file = &self.files[i];
            let wanted = file.storage_dir == args.storage_dir && match &args.directory {
                Some(directory) => file.directory == *directory,
                None => true,
            };
            proof {
                let before = views(self.files@).subrange(0, i as int);
                assert(views(self.files@).subrange(0, i + 1) =~= before.push(file@));
                lemma_listed_push(before, file@, storage_dir, directory);
                assert(wanted == in_listing(file@, storage_dir, directory));
            }
            if wanted {
                let ghost kept = views(out@);
                out.push(file.clone());
                assert(views(out@) =~= kept.push(file@));
            }
            i = i + 1;
        }
        assert(views(self.files@).subrange(0, n as int) =~= views(self.files@));
        out
    }

    /// The records of the storage root and of the directory that `args` means whose file
    /// name holds the query. A search that names no directory means the root of the storage.
    pub fn search(&self, args: SearchArgs) -> (out: Vec<File>)
        ensures
            views(out@) == searched(
                self@,
                args.query@,
                text_of(args.directory),
                args.storage_dir@,
            ),
            consistent(self@),
    {
        proof {
            use_type_invariant(self);
        }
        let wanted_directory = directory_of(&args.directory);
        let ghost storage_dir = args.storage_dir@;
        let ghost directory = text_of(args.directory);
        let ghost query = args.query@;
        let n: usize = self.files.len();
        let mut out: Vec<File> = Vec::new();
        let mut i: usize = 0;
        assert(views(self.files@).subrange(0, 0) =~= Seq::<FileView>::empty());
        assert(views(out@) =~= Seq::<FileView>::empty());
        assert(searched(Seq::<FileView>::empty(), query, directory, storage_dir) =~= Seq::<
            FileView,
        >::empty()) by {
            reveal(Seq::filter);
        }
        while i < n
            invariant
                n == self.files@.len(),
                i <= n,
                storage_dir == args.storage_dir@,
                directory == text_of(args.directory),
                query == args.query@,
                wanted_directory@ == normalized(directory),
                views(out@) == searched(
                    views(self.files@).subrange(0, i as int),
                    query,
                    directory,
                    storage_dir,
                ),
            decreases n - i,
        {
            let file = &self.files[i];
            let wanted = file.storage_dir == args.storage_dir && file.directory
                == wanted_directory && contains(file.filename.as_str(), args.query.as_str());
            proof {
                let before = views(self.files@).subrange(0, i as int);
                assert(views(self.files@).subrange(0, i + 1) =~= before.push(file@));
                lemma_searched_push(before, file@, query, directory, storage_dir);
                assert(wanted == in_search(file@, query, directory, storage_dir));
            }
            if wanted {
                let ghost kept = views(out@);
                out.push(file.clone());
                assert(views(out@) =~= kept.push(file@));
            }
            i = i + 1;
        }
        assert(views(self.files@).subrange(0, n as int) =~= views(self.files@));
        out
    }

    /// Puts a record at the place that `args` names and returns it, with the identifier
    /// that it was given. Where the place is taken, or no identifier is left, the catalog
    /// stays as it was.
    pub fn create(&mut self, args: CreateArgs) -> (out: Result<File, Error>)
        ensures
            consistent(old(self)@),
            consistent(final(self)@),
            match out {
                Ok(file) => created(
                    old(self)@,
                    text_of(args.directory),
                    args.filename@,
                    args.storage_dir@,
                ) == Ok::<(Seq<FileView>, FileView), ErrorView>((final(self)@, file@)),
                Err(error) => final(self)@ == old(self)@ && created(
                    old(self)@,
                    text_of(args.directory),
                    args.filename@,
                    args.storage_dir@,
                ) == Err::<(Seq<FileView>, FileView), ErrorView>(error@),
            },
    {
        proof {
            use_type_invariant(&*self);
        }
        let directory = directory_of(&args.directory);
        if let Some(i) = self.find(&directory, &args.filename, &args.storage_dir) {
            proof {
                lemma_index_at(
                    self@,
                    place(text_of(args.directory), args.filename@, args.storage_dir@),
                    i as int,
                );
            }
            return Err(Error::Conflict);
        }
        let highest: i64 = self.highest();
        if highest == i64::MAX {
            return Err(Error::Storage { detail: String::from_str("no identifier is left") });
        }
        let file = File {
            id: highest + 1,
            directory,
            filename: args.filename,
            storage_dir: args.storage_dir,
        };
        let stored = file.clone();
        proof {
            lemma_consistent_push(views(self.files@), file@);
            assert(views(self.files@.push(stored)) =~= views(self.files@).push(file@));
        }
        let mut files: Vec<File> = Vec::new();
        core::mem::swap(&mut self.files, &mut files);
        files.push(stored);
        core::mem::swap(&mut self.files, &mut files);
        Ok(file)
    }

    /// Takes the record at the place that `args` names out of the catalog and returns it.
    /// Where no record stands there, the catalog stays as it was.
    pub fn delete(&mut self, args: DeleteArgs) -> (out: Result<File, Error>)
        ensures
            consistent(old(self)@),
            consistent(final(self)@),
            match out {
                Ok(file) => deleted(
                    old(self)@,
                    text_of(args.directory),
                    args.filename@,
                    args.storage_dir@,
                ) == Ok::<(Seq<FileView>, FileView), ErrorView>((final(self)@, file@)),
                Err(error) => final(self)@ == old(self)@ && deleted(
                    old(self)@,
                    text_of(args.directory),
                    args.filename@,
                    args.storage_dir@,
                ) == Err::<(Seq<FileView>, FileView), ErrorView>(error@),
            },
    {
        proof {
            use_type_invariant(&*self);
        }
        let directory = directory_of(&args.directory);
        match self.find(&directory, &args.filename, &args.storage_dir) {
            Some(i) => {
                proof {
                    lemma_index_at(
                        self@,
                        place(text_of(args.directory), args.filename@, args.storage_dir@),
                        i as int,
                    );
                    lemma_consistent_remove(views(self.files@), i as int);
                    assert(views(self.files@.remove(i as int)) =~= views(self.files@).remove(
                        i as int,
                    ));
                }
                let mut files: Vec<File> = Vec::new();
                core::mem::swap(&mut self.files, &mut files);
                let file = files.remove(i);
                core::mem::swap(&mut self.files, &mut files);
                Ok(file)
            },
            None => Err(Error::NotFound),
        }
    }

    /// The record at the place that `args` names.
    pub fn get_file(&self, args: GetFileArgs) -> (out: Result<File, Error>)
        ensures
            consistent(self@),
            match out {
                Ok(file) => looked_up(
                    self@,
                    text_of(args.directory),
                    args.filename@,
                    args.storage_dir@,
                ) == Ok::<FileView, ErrorView>(file@),
                Err(error) => looked_up(
                    self@,
                    text_of(args.directory),
                    args.filename@,
                    args.storage_dir@,
                ) == Err::<FileView, ErrorView>(error@),
            },
    {
        let directory = directory_of(&args.directory);
        proof {
            use_type_invariant(self);
        }
        match self.find(&directory, &args.filename, &args.storage_dir) {
            Some(i) => {
                proof {
                    lemma_index_at(
                        self@,
                        place(text_of(args.directory), args.filename@, args.storage_dir@),
                        i as int,
                    );
                }
                Ok(self.files[i].clone())
            },
            None => Err(Error::NotFound),
        }
    }
}

} // verus!
