//! Where an index lives and how it is opened.
//!
//! The engine creates, opens and writes the index; this module holds the
//! settings every such operation is given and the decisions around opening.
use crate::engine::schema_fields;
use crate::errors::CoreError;
use crate::schema::{engine_takes, mismatch_of, DocSchema, SchemaError};
use tantivy::schema::Schema;
use vstd::prelude::*;

verus! {

/// Bytes of write buffer an indexing run gets unless configured otherwise.
pub const DEFAULT_WRITER_BUDGET: usize = 50_000_000;

/// Bytes of write buffer a merge gets unless configured otherwise.
pub const DEFAULT_MERGE_BUDGET: usize = 500_000_000;

/// Where the index is kept unless configured otherwise.
pub open spec fn default_index_path() -> Seq<char> {
    "./index"@
}

/// The settings threaded into every operation on an index.
#[derive(Clone, Debug)]
pub struct IndexingContext {
    /// The directory that holds the index.
    pub index_path: String,
    /// Bytes of write buffer for an indexing run. When the buffer is full the
    /// engine flushes it on its own; that is not an error.
    pub writer_budget: usize,
    /// Bytes of write buffer for a merge.
    pub merge_budget: usize,
    /// Files larger than this many bytes are not read. No maximum by default.
    pub max_file_bytes: Option<u64>,
}

/// How the index at a path is obtained.
#[derive(Clone, Copy, Debug, PartialEq, Eq, Structural)]
pub enum OpenAction {
    /// Nothing is at the path: create the directory and a fresh, empty index.
    Create,
    /// Something is at the path: open it as an index, never recreate it.
    Open,
}

impl IndexingContext {
    /// The settings for an index at `index_path`, with default budgets and no
    /// maximum file size.
    pub fn at(index_path: String) -> (context: IndexingContext)
        ensures
            context.index_path == index_path,
            context.writer_budget == DEFAULT_WRITER_BUDGET,
            context.merge_budget == DEFAULT_MERGE_BUDGET,
            context.max_file_bytes is None,
    {
        IndexingContext {
            index_path,
            writer_budget: DEFAULT_WRITER_BUDGET,
            merge_budget: DEFAULT_MERGE_BUDGET,
            max_file_bytes: None,
        }
    }

    /// The settings for an index at the default location.
    pub fn at_default_location() -> (context: IndexingContext)
        ensures
            context.index_path@ == default_index_path(),
            context.writer_budget == DEFAULT_WRITER_BUDGET,
            context.merge_budget == DEFAULT_MERGE_BUDGET,
            context.max_file_bytes is None,
    {
        IndexingContext::at("./index".to_owned())
    }
}

/// Decides how to obtain the index, given whether anything exists at its path.
pub fn open_action(path_exists: bool) -> (action: OpenAction)
    ensures
        action == if path_exists {
            OpenAction::Open
        } else {
            OpenAction::Create
        },
{
    if path_exists {
        OpenAction::Open
    } else {
        OpenAction::Create
    }
}

/// What `schema_for_creation` answers for a schema.
pub open spec fn creation_outcome(schema: DocSchema, made: Result<Schema, CoreError>) -> bool {
    match made {
        Ok(engine) => schema_fields(engine) == schema@,
        Err(CoreError::Schema(SchemaError::UnsupportedFieldName { position, name })) => {
            &&& position < schema@.len()
            &&& forall|k: int| 0 <= k < position ==> engine_takes((#[trigger] schema@[k]).name)
            &&& !engine_takes(schema@[position as int].name)
            &&& name@ == schema@[position as int].name
        },
        Err(_) => false,
    }
}

/// The engine schema a fresh index is created with.
pub fn schema_for_creation(schema: &DocSchema) -> (made: Result<Schema, CoreError>)
    ensures
        creation_outcome(*schema, made),
{
    match schema.engine_schema() {
        Ok(engine) => Ok(engine),
        Err(error) => Err(CoreError::Schema(error)),
    }
}

/// What `check_opened` answers for the schema asked for and the schema found.
pub open spec fn opened_outcome(
    path: String,
    schema: DocSchema,
    found: Schema,
    checked: Result<(), CoreError>,
) -> bool {
    match checked {
        Ok(()) => schema_fields(found) == schema@,
        Err(CoreError::SchemaMismatch { path: at, mismatch }) => {
            &&& at == path
            &&& mismatch_of(schema@, schema_fields(found), Err(mismatch))
        },
        Err(_) => false,
    }
}

/// Validates an index that was opened rather than created: it must have been
/// built against the schema now asked for. A mismatch is fatal to the open.
pub fn check_opened(path: String, schema: &DocSchema, found: &Schema) -> (checked: Result<
    (),
    CoreError,
>)
    ensures
        opened_outcome(path, *schema, *found, checked),
{
    match schema.check_engine_schema(found) {
        Ok(()) => Ok(()),
        Err(mismatch) => Err(CoreError::SchemaMismatch { path, mismatch }),
    }
}

/// Round trip: an index created for a schema and opened again with the same
/// schema passes the check, whatever the schema.
pub proof fn created_index_reopens(
    path: String,
    schema: DocSchema,
    created: Schema,
    checked: Result<(), CoreError>,
)
    requires
        creation_outcome(schema, Ok(created)),
        opened_outcome(path, schema, created, checked),
    ensures
        checked is Ok,
{
}

} // verus!
