use vstd::prelude::*;
use vstd::string::StringExecFns;

verus! {

/// One catalog record: the logical location of a snippet.
#[derive(Debug, PartialEq, Eq)]
pub struct File {
    pub id: i64,
    pub directory: String,
    pub filename: String,
    pub storage_dir: String,
}

/// What a catalog record is, as mathematics: an identifier and three texts.
pub ghost struct FileView {
    pub id: int,
    pub directory: Seq<char>,
    pub filename: Seq<char>,
    pub storage_dir: Seq<char>,
}

impl View for File {
    type V = FileView;

    open spec fn view(&self) -> FileView {
        FileView {
            id: self.id as int,
            directory: self.directory@,
            filename: self.filename@,
            storage_dir: self.storage_dir@,
        }
    }
}

/// The records of a list, as mathematics.
pub open spec fn views(files: Seq<File>) -> Seq<FileView> {
    Seq::new(files.len(), |i: int| files[i]@)
}

/// `directory/filename`, or the bare file name for a record at the root of its storage.
pub open spec fn logical_path(file: FileView) -> Seq<char> {
    if file.directory.len() > 0 {
        file.directory + seq!['/'] + file.filename
    } else {
        file.filename
    }
}

/// The logical path behind the record's own storage root.
pub open spec fn physical_path(file: FileView) -> Seq<char> {
    file.storage_dir + seq!['/'] + logical_path(file)
}

/// The three fields in the order storage root, directory, file name, one space between
/// neighbours. An empty directory stays in its place as an empty field.
pub open spec fn porcelain_line(file: FileView) -> Seq<char> {
    file.storage_dir + seq![' '] + file.directory + seq![' '] + file.filename
}

impl Clone for File {
    fn clone(&self) -> (out: File)
        ensures
            out@ == self@,
    {
        File {
            id: self.id,
            directory: self.directory.clone(),
            filename: self.filename.clone(),
            storage_dir: self.storage_dir.clone(),
        }
    }
}

impl File {
    /// The record's logical path.
    pub fn path(&self) -> (out: String)
        ensures
            out@ == logical_path(self@),
    {
        if !self.directory.as_str().is_empty() {
            let mut out = self.directory.clone();
            proof {
                reveal_strlit("/");
            }
            out.append("/");
            out.append(self.filename.as_str());
            assert(out@ =~= logical_path(self@));
            return out;
        }
        self.filename.clone()
    }

    /// The record's physical path under the storage root that the record itself names.
    pub fn full_path(&self) -> (out: String)
        ensures
            out@ == physical_path(self@),
    {
        let mut out = self.storage_dir.clone();
        proof {
            reveal_strlit("/");
        }
        out.append("/");
        if !self.directory.as_str().is_empty() {
            out.append(self.directory.as_str());
            out.append("/");
        }
        out.append(self.filename.as_str());
        assert(out@ =~= physical_path(self@));
        out
    }

    /// The record as one line for scripts to read.
    pub fn porcelain(&self) -> (out: String)
        ensures
            out@ == porcelain_line(self@),
    {
        let mut out = self.storage_dir.clone();
        proof {
            reveal_strlit(" ");
        }
        out.append(" ");
        out.append(self.directory.as_str());
        out.append(" ");
        out.append(self.filename.as_str());
        assert(out@ =~= porcelain_line(self@));
        out
    }
}

} // verus!
