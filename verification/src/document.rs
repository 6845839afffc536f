//! From a file's contents to the document that is indexed for it.
use crate::engine::{add_text, document_values, new_document, FieldView};
use crate::schema::{field_views, DocSchema};
use tantivy::TantivyDocument;
use vstd::prelude::*;
use vstd::utf8::{decode_utf8, encode_utf8, encode_utf8_decode_utf8, valid_utf8};

verus! {

/// What a file turned out to hold.
#[derive(Clone, Debug)]
pub enum FileContent {
    /// Valid text, decoded.
    Text(String),
    /// Bytes that are not valid text.
    Binary,
    /// Nothing: the file could not be read, for the reason given.
    Unreadable(String),
}

/// Why no document was built for a file.
#[derive(Clone, Debug)]
pub enum SkipReason {
    Binary,
    Unreadable(String),
    /// The file is larger than the configured maximum.
    TooLarge,
}

/// One value of a document: the name of a field and the text under it.
#[derive(Clone, Debug)]
pub struct FieldValue {
    pub field: String,
    pub text: String,
}

/// The unit that is indexed: values by field name, in the order given.
#[derive(Clone, Debug)]
pub struct Document {
    pub values: Vec<FieldValue>,
}

impl View for Document {
    type V = Seq<(Seq<char>, Seq<char>)>;

    open spec fn view(&self) -> Seq<(Seq<char>, Seq<char>)> {
        Seq::new(self.values@.len(), |i: int| (self.values@[i].field@, self.values@[i].text@))
    }
}

/// The outcome of building a document for a file.
#[derive(Clone, Debug)]
pub enum Built {
    Doc(Document),
    Skip(SkipReason),
}

/// Why a document cannot be added to an index.
#[derive(Clone, Debug)]
pub enum IngestError {
    /// The value at this position names a field the schema does not have.
    UnknownField { position: usize, field: String },
    /// The document has no value for this searchable field of the schema.
    MissingField { position: usize, field: String },
    /// The engine refused the document, for the reason given.
    Rejected { reason: String },
}

/// `String::from_utf8`: the text whose encoding the bytes are, when they are
/// valid UTF-8, and nothing when they are not.
#[verifier::external_body]
fn text_from_utf8(bytes: Vec<u8>) -> (text: Option<String>)
    ensures
        text is Some <==> valid_utf8(bytes@),
        text matches Some(s) ==> encode_utf8(s@) == bytes@,
{
    match String::from_utf8(bytes) {
        Ok(s) => Some(s),
        Err(_) => None,
    }
}

/// What `classify` makes of the outcome of reading a file.
pub open spec fn classified(read: Result<Vec<u8>, String>, content: FileContent) -> bool {
    match read {
        Ok(bytes) => if valid_utf8(bytes@) {
            content matches FileContent::Text(s) && s@ == decode_utf8(bytes@)
        } else {
            content is Binary
        },
        Err(reason) => content == FileContent::Unreadable(reason),
    }
}

/// Classifies what was read from a file: the text the bytes decode to when
/// they are valid UTF-8, binary when they are not, unreadable when reading
/// failed.
pub fn classify(read: Result<Vec<u8>, String>) -> (content: FileContent)
    ensures
        classified(read, content),
{
    match read {
        Ok(bytes) => match text_from_utf8(bytes) {
            Some(text) => {
                proof {
                    encode_utf8_decode_utf8(text@);
                }
                FileContent::Text(text)
            },
            None => FileContent::Binary,
        },
        Err(reason) => FileContent::Unreadable(reason),
    }
}

/// Decides, before a file is read, whether its size rules it out: a file
/// larger than the configured maximum is skipped. Without a maximum no file
/// is.
pub fn size_check(size: u64, max_bytes: Option<u64>) -> (skip: Option<SkipReason>)
    ensures
        match max_bytes {
            Some(max) if size > max => skip matches Some(SkipReason::TooLarge),
            _ => skip is None,
        },
{
    match max_bytes {
        Some(max) => if size > max {
            Some(SkipReason::TooLarge)
        } else {
            None
        },
        None => None,
    }
}

/// The values of the document of a file: its path as `title`, its text as `body`.
pub open spec fn file_values(path: Seq<char>, body: Seq<char>) -> Seq<(Seq<char>, Seq<char>)> {
    seq![("title"@, path), ("body"@, body)]
}

/// What `build` returns for a file's path and contents.
pub open spec fn built_for(path: Seq<char>, content: FileContent, built: Built) -> bool {
    match content {
        FileContent::Text(body) => built matches Built::Doc(doc) && doc@ == file_values(
            path,
            body@,
        ),
        FileContent::Binary => built matches Built::Skip(SkipReason::Binary),
        FileContent::Unreadable(reason) => built == Built::Skip(SkipReason::Unreadable(reason)),
    }
}

/// Builds the document of a file from its canonical path and its contents.
/// Only text makes a document; anything else is skipped, with the reason.
pub fn build(path: String, content: FileContent) -> (built: Built)
    ensures
        built_for(path@, content, built),
{
    match content {
        FileContent::Text(body) => {
            let mut values: Vec<FieldValue> = Vec::new();
            values.push(FieldValue { field: "title".to_owned(), text: path });
            values.push(FieldValue { field: "body".to_owned(), text: body });
            let doc = Document { values };
            assert(doc@ =~= file_values(path@, body@));
            Built::Doc(doc)
        },
        FileContent::Binary => Built::Skip(SkipReason::Binary),
        FileContent::Unreadable(reason) => Built::Skip(SkipReason::Unreadable(reason)),
    }
}

/// The document has a value under the field name.
pub open spec fn has_value(doc: Seq<(Seq<char>, Seq<char>)>, field: Seq<char>) -> bool {
    exists|k: int| 0 <= k < doc.len() && (#[trigger] doc[k]).0 == field
}

/// The schema has a field of the name.
pub open spec fn has_field(schema: Seq<FieldView>, field: Seq<char>) -> bool {
    exists|i: int| 0 <= i < schema.len() && (#[trigger] schema[i]).name == field
}

/// The document fits the schema: each of its values is under a field of the
/// schema, and it has a value for every searchable field.
pub open spec fn conforms(doc: Seq<(Seq<char>, Seq<char>)>, schema: Seq<FieldView>) -> bool {
    &&& forall|k: int| 0 <= k < doc.len() ==> has_field(schema, (#[trigger] doc[k]).0)
    &&& forall|i: int|
        0 <= i < schema.len() && (#[trigger] schema[i]).indexed ==> has_value(doc, schema[i].name)
}

/// The engine's document carries the values of `doc`, in order, each under
/// the position its field has in the schema.
pub open spec fn carries(
    values: Seq<(u32, Seq<char>)>,
    doc: Seq<(Seq<char>, Seq<char>)>,
    schema: Seq<FieldView>,
) -> bool {
    &&& values.len() == doc.len()
    &&& forall|k: int|
        0 <= k < doc.len() ==> {
            &&& (#[trigger] values[k]).0 < schema.len()
            &&& schema[values[k].0 as int].name == doc[k].0
            &&& values[k].1 == doc[k].1
        }
}

/// What `engine_document` returns for a document and a schema.
pub open spec fn converted(
    doc: Seq<(Seq<char>, Seq<char>)>,
    schema: Seq<FieldView>,
    made: Result<TantivyDocument, IngestError>,
) -> bool {
    match made {
        Ok(out) => conforms(doc, schema) && carries(document_values(out), doc, schema),
        Err(IngestError::UnknownField { position, field }) => {
            &&& position < doc.len()
            &&& forall|k: int| 0 <= k < position ==> has_field(schema, (#[trigger] doc[k]).0)
            &&& !has_field(schema, doc[position as int].0)
            &&& field@ == doc[position as int].0
        },
        Err(IngestError::MissingField { position, field }) => {
            &&& forall|k: int| 0 <= k < doc.len() ==> has_field(schema, (#[trigger] doc[k]).0)
            &&& position < schema.len()
            &&& forall|i: int|
                0 <= i < position && (#[trigger] schema[i]).indexed ==> has_value(
                    doc,
                    schema[i].name,
                )
            &&& schema[position as int].indexed
            &&& !has_value(doc, schema[position as int].name)
            &&& field@ == schema[position as int].name
        },
        Err(IngestError::Rejected { .. }) => false,
    }
}

/// A document that fits a schema is always accepted for an index of that
/// schema, and the engine is handed every one of its values, the title among
/// them, under the field the value names.
pub proof fn conforming_document_is_accepted(
    doc: Seq<(Seq<char>, Seq<char>)>,
    schema: Seq<FieldView>,
    made: Result<TantivyDocument, IngestError>,
)
    requires
        converted(doc, schema, made),
        conforms(doc, schema),
    ensures
        made matches Ok(out) && carries(document_values(out), doc, schema),
{
}

impl Document {
    /// Whether the document has a value under the field name.
    pub fn has(&self, field: &String) -> (found: bool)
        ensures
            found == has_value(self@, field@),
    {
        let mut k: usize = 0;
        while k < self.values.len()
            invariant
                k <= self.values.len(),
                forall|j: int| 0 <= j < k ==> (#[trigger] self@[j]).0 != field@,
            decreases self.values.len() - k,
        {
            if self.values[k].field == *field {
                assert(self@[k as int].0 == field@);
                return true;
            }
            k += 1;
        }
        false
    }

    /// The document as the engine takes it, for an index of the given schema.
    /// A document that does not fit the schema is refused: the first value
    /// under an unknown field is reported, or else the first searchable field
    /// that has no value.
    pub fn engine_document(&self, schema: &DocSchema) -> (made: Result<
        TantivyDocument,
        IngestError,
    >)
        ensures
            converted(self@, schema@, made),
    {
        let fields = schema.fields();
        let mut out = new_document();
        let mut k: usize = 0;
        while k < self.values.len()
            invariant
                k <= self.values.len(),
                schema@.len() <= u32::MAX,
                field_views(fields@) == schema@,
                forall|j: int| 0 <= j < k ==> has_field(schema@, (#[trigger] self@[j]).0),
                carries(document_values(out), self@.take(k as int), schema@),
            decreases self.values.len() - k,
        {
            let value = &self.values[k];
            match schema.position_of(&value.field) {
                Some(position) => {
                    add_text(&mut out, position as u32, value.text.as_str());
                },
                None => {
                    return Err(
                        IngestError::UnknownField { position: k, field: value.field.clone() },
                    );
                },
            }
            k += 1;
        }
        let mut i: usize = 0;
        while i < fields.len()
            invariant
                i <= fields.len(),
                field_views(fields@) == schema@,
                forall|j: int| 0 <= j < self@.len() ==> has_field(schema@, (#[trigger] self@[j]).0),
                carries(document_values(out), self@, schema@),
                forall|j: int|
                    0 <= j < i && (#[trigger] schema@[j]).indexed ==> has_value(
                        self@,
                        schema@[j].name,
                    ),
            decreases fields.len() - i,
        {
            if fields[i].options.indexed && !self.has(&fields[i].name) {
                return Err(
                    IngestError::MissingField { position: i, field: fields[i].name.clone() },
                );
            }
            i += 1;
        }
        Ok(out)
    }
}

} // verus!
