use vstd::prelude::*;
use vstd::string::StringExecFns;

verus! {

/// The catalog operation that an error is reported for.
#[derive(Debug, Clone, Copy, PartialEq, Eq, Structural)]
pub enum Operation {
    List,
    Create,
    Get,
    Search,
    Delete,
}

/// Why an operation failed.
#[derive(Debug, PartialEq, Eq)]
pub enum Error {
    /// No entry stands at the place that was named.
    NotFound,
    /// An entry stands at the place already.
    Conflict,
    /// The catalog or the disk could not do its part; nothing was changed.
    Storage { detail: String },
    /// The catalog was changed, and the file at `path` could not be made to follow.
    PartialSync { path: String, detail: String },
}

/// An error as mathematics: its kind, and the texts it carries.
pub ghost enum ErrorView {
    NotFound,
    Conflict,
    Storage { detail: Seq<char> },
    PartialSync { path: Seq<char>, detail: Seq<char> },
}

impl View for Error {
    type V = ErrorView;

    open spec fn view(&self) -> ErrorView {
        match self {
            Error::NotFound => ErrorView::NotFound,
            Error::Conflict => ErrorView::Conflict,
            Error::Storage { detail } => ErrorView::Storage { detail: detail@ },
            Error::PartialSync { path, detail } => ErrorView::PartialSync {
                path: path@,
                detail: detail@,
            },
        }
    }
}

/// The name under which an operation is reported.
pub open spec fn operation_name(operation: Operation) -> Seq<char> {
    match operation {
        Operation::List => "list"@,
        Operation::Create => "create"@,
        Operation::Get => "get"@,
        Operation::Search => "search"@,
        Operation::Delete => "delete"@,
    }
}

/// What an error says once the operation's name has been given.
pub open spec fn error_text(error: ErrorView) -> Seq<char> {
    match error {
        ErrorView::NotFound => ": no such entry"@,
        ErrorView::Conflict => ": the entry exists already"@,
        ErrorView::Storage { detail } => ": storage failed: "@ + detail,
        ErrorView::PartialSync { path, detail } => ": the catalog was changed, but "@ + path
            + " was not: "@ + detail + "; bring the two into line by hand"@,
    }
}

/// The report of an error that `operation` ended with.
pub open spec fn report(operation: Operation, error: ErrorView) -> Seq<char> {
    operation_name(operation) + error_text(error)
}

impl Operation {
    /// The name under which the operation is reported.
    pub fn name(&self) -> (out: &'static str)
        ensures
            out@ == operation_name(*self),
    {
        match self {
            Operation::List => "list",
            Operation::Create => "create",
            Operation::Get => "get",
            Operation::Search => "search",
            Operation::Delete => "delete",
        }
    }
}

impl Error {
    /// The report of this error for a reader: the operation that failed, the kind of
    /// failure and what is known of its cause. A partial synchronisation names the path
    /// and says that catalog and disk must be reconciled by hand.
    pub fn message(&self, operation: Operation) -> (out: String)
        ensures
            out@ == report(operation, self@),
    {
        let mut out = String::from_str(operation.name());
        match self {
            Error::NotFound => {
                out.append(": no such entry");
            },
            Error::Conflict => {
                out.append(": the entry exists already");
            },
            Error::Storage { detail } => {
                out.append(": storage failed: ");
                out.append(detail.as_str());
            },
            Error::PartialSync { path, detail } => {
                out.append(": the catalog was changed, but ");
                out.append(path.as_str());
                out.append(" was not: ");
                out.append(detail.as_str());
                out.append("; bring the two into line by hand");
                assert(out@ =~= report(operation, self@));
            },
        }
        out
    }
}

} // verus!
