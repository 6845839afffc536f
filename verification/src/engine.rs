//! The search engine's schema and document values, as far as this library
//! handles them. Everything in this file is taken on trust from the engine:
//! the contracts restate what its source does and are not proved.
use tantivy::schema::{Schema, SchemaBuilder, TextOptions, TEXT};
use tantivy::TantivyDocument;
use vstd::prelude::*;

verus! {

/// The engine's schema builder, `tantivy::schema::SchemaBuilder`.
#[verifier::external_type_specification]
#[verifier::external_body]
pub struct ExSchemaBuilder(tantivy::schema::SchemaBuilder);

/// The engine's schema, `tantivy::schema::Schema`.
#[verifier::external_type_specification]
#[verifier::external_body]
pub struct ExSchema(tantivy::schema::Schema);

/// The engine's options for a text field, `tantivy::schema::TextOptions`.
#[verifier::external_type_specification]
#[verifier::external_body]
pub struct ExTextOptions(tantivy::schema::TextOptions);

/// The engine's document, `tantivy::TantivyDocument`.
#[verifier::external_type_specification]
#[verifier::external_body]
pub struct ExTantivyDocument(tantivy::TantivyDocument);

/// One field of a schema: its name and what the engine does with its values.
pub struct FieldView {
    pub name: Seq<char>,
    pub indexed: bool,
    pub stored: bool,
}

/// The field entries a schema builder holds, in the order they were added.
pub uninterp spec fn builder_fields(builder: SchemaBuilder) -> Seq<FieldView>;

/// The field entries of a schema, in field-id order.
pub uninterp spec fn schema_fields(schema: Schema) -> Seq<FieldView>;

/// Whether text options ask for the field to be indexed.
pub uninterp spec fn options_indexed(options: TextOptions) -> bool;

/// Whether text options ask for the field to be stored.
pub uninterp spec fn options_stored(options: TextOptions) -> bool;

/// The (field id, text) pairs a document holds, in the order they were added.
pub uninterp spec fn document_values(doc: TantivyDocument) -> Seq<(u32, Seq<char>)>;

/// `Schema::builder`: a builder that holds no field.
#[verifier::external_body]
pub(crate) fn new_builder() -> (builder: SchemaBuilder)
    ensures
        builder_fields(builder) == Seq::<FieldView>::empty(),
{
    Schema::builder()
}

/// `TextOptions::default`: options that neither index nor store.
#[verifier::external_body]
pub(crate) fn bare_options() -> (options: TextOptions)
    ensures
        !options_indexed(options),
        !options_stored(options),
{
    TextOptions::default()
}

/// `TextOptions | TEXT`: the same options, with tokenized indexing switched on.
#[verifier::external_body]
pub(crate) fn with_indexing(options: TextOptions) -> (out: TextOptions)
    ensures
        options_indexed(out),
        options_stored(out) == options_stored(options),
{
    options | TEXT
}

/// `TextOptions::set_stored`: the same options, with storing switched on.
#[verifier::external_body]
pub(crate) fn with_storing(options: TextOptions) -> (out: TextOptions)
    ensures
        options_stored(out),
        options_indexed(out) == options_indexed(options),
{
    options.set_stored()
}

/// `SchemaBuilder::add_text_field`: appends a text field entry. The engine
/// panics on an empty name, on a name that starts with `-` and on a name the
/// builder already holds, so those are left out.
#[verifier::external_body]
pub(crate) fn add_text_field(builder: &mut SchemaBuilder, name: &str, options: TextOptions)
    requires
        name@.len() > 0,
        name@[0] != '-',
        forall|i: int|
            0 <= i < builder_fields(*old(builder)).len() ==> builder_fields(*old(builder))[i].name
                != name@,
    ensures
        builder_fields(*final(builder)) == builder_fields(*old(builder)).push(
            FieldView {
                name: name@,
                indexed: options_indexed(options),
                stored: options_stored(options),
            },
        ),
{
    builder.add_text_field(name, options);
}

/// `SchemaBuilder::build`: the schema holds the builder's entries.
#[verifier::external_body]
pub(crate) fn finish_builder(builder: SchemaBuilder) -> (schema: Schema)
    ensures
        schema_fields(schema) == builder_fields(builder),
{
    builder.build()
}

/// `Schema::fields`: the entries in field-id order, each given by
/// `FieldEntry::name`, `FieldEntry::is_indexed` and `FieldEntry::is_stored`.
#[verifier::external_body]
pub(crate) fn list_fields(schema: &Schema) -> (fields: Vec<(String, bool, bool)>)
    ensures
        fields@.len() == schema_fields(*schema).len(),
        forall|i: int|
            0 <= i < fields@.len() ==> {
                &&& (#[trigger] fields@[i]).0@ == schema_fields(*schema)[i].name
                &&& fields@[i].1 == schema_fields(*schema)[i].indexed
                &&& fields@[i].2 == schema_fields(*schema)[i].stored
            },
{
    schema.fields().map(|(_, e)| (e.name().to_string(), e.is_indexed(), e.is_stored())).collect()
}

/// `TantivyDocument::new`: a document that holds no value.
#[verifier::external_body]
pub(crate) fn new_document() -> (doc: TantivyDocument)
    ensures
        document_values(doc) == Seq::<(u32, Seq<char>)>::empty(),
{
    TantivyDocument::new()
}

/// `TantivyDocument::add_text`: appends one text value under a field id.
#[verifier::external_body]
pub(crate) fn add_text(doc: &mut TantivyDocument, field: u32, text: &str)
    ensures
        document_values(*final(doc)) == document_values(*old(doc)).push((field, text@)),
{
    doc.add_text(tantivy::schema::Field::from_field_id(field), text);
}

} // verus!
