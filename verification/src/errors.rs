//! The failures the library reports.
use crate::document::IngestError;
use crate::schema::{SchemaError, SchemaMismatchError};
use crate::text::{decimal_text, render_decimal};
use vstd::prelude::*;
use vstd::string::StringExecFns;

verus! {

/// A directory that was looked for does not exist or could not be determined.
#[derive(Clone, Debug)]
pub struct DirectoryNotFoundError {
    pub message: String,
    pub code: i32,
}

impl DirectoryNotFoundError {
    /// The error as a line of text: its message, then its code in decimal.
    pub open spec fn description(self) -> Seq<char> {
        "MyCustomError: "@ + self.message@ + " (code: "@ + decimal_text(self.code as int) + ")"@
    }

    /// Writes the error as a line of text.
    pub fn describe(&self) -> (text: String)
        ensures
            text@ == self.description(),
    {
        let mut text = "MyCustomError: ".to_owned();
        text.append(self.message.as_str());
        text.append(" (code: ");
        let code = render_decimal(self.code);
        text.append(code.as_str());
        text.append(")");
        text
    }
}

/// What was being done to the index when the engine failed.
#[derive(Clone, Copy, Debug, PartialEq, Eq, Structural)]
pub enum Operation {
    Open,
    Add,
    Commit,
    Merge,
    Search,
}

/// A failure of the indexing and retrieval core.
#[derive(Clone, Debug)]
pub enum CoreError {
    /// The field definitions are malformed.
    Schema(SchemaError),
    /// The index at this path was built against another schema.
    SchemaMismatch { path: String, mismatch: SchemaMismatchError },
    /// The index at this path is corrupt or cannot be reached.
    IndexOpen { path: String, reason: String },
    /// Another writer holds the index at this path.
    LockContention { path: String },
    /// A document could not be added.
    Ingest(IngestError),
    /// Buffered documents could not be made durable in the index at this
    /// path. What was committed before is intact.
    Commit { path: String, reason: String },
    /// Segments of the index at this path could not be merged. What was
    /// committed before is intact.
    Merge { path: String, reason: String },
    /// The query text is not a query.
    QueryParse { query: String, reason: String },
    /// The index at this path could not be read while searching.
    SearchExecution { path: String, reason: String },
}

/// The typed failure for an engine failure during `operation` on the index
/// at `path`. A held writer lock is lock contention whatever was being done.
pub open spec fn failure_of(
    operation: Operation,
    lock_held: bool,
    path: String,
    reason: String,
) -> CoreError {
    if lock_held {
        CoreError::LockContention { path }
    } else {
        match operation {
            Operation::Open => CoreError::IndexOpen { path, reason },
            Operation::Add => CoreError::Ingest(IngestError::Rejected { reason }),
            Operation::Commit => CoreError::Commit { path, reason },
            Operation::Merge => CoreError::Merge { path, reason },
            Operation::Search => CoreError::SearchExecution { path, reason },
        }
    }
}

/// Turns an engine failure on the index at `path` into the typed failure the
/// caller is given.
pub fn engine_failure(
    operation: Operation,
    lock_held: bool,
    path: String,
    reason: String,
) -> (error: CoreError)
    ensures
        error == failure_of(operation, lock_held, path, reason),
{
    if lock_held {
        CoreError::LockContention { path }
    } else {
        match operation {
            Operation::Open => CoreError::IndexOpen { path, reason },
            Operation::Add => CoreError::Ingest(IngestError::Rejected { reason }),
            Operation::Commit => CoreError::Commit { path, reason },
            Operation::Merge => CoreError::Merge { path, reason },
            Operation::Search => CoreError::SearchExecution { path, reason },
        }
    }
}

/// The typed failure for a query text the engine could not parse.
pub fn parse_failure(query: String, reason: String) -> (error: CoreError)
    ensures
        error == (CoreError::QueryParse { query, reason }),
{
    CoreError::QueryParse { query, reason }
}

} // verus!
