//! The fields of an index: their names and what is done with their values.
use crate::engine::{
    add_text_field, bare_options, builder_fields, finish_builder, list_fields, new_builder,
    options_indexed, options_stored, schema_fields, with_indexing, with_storing, FieldView,
};
use tantivy::schema::{Schema, TextOptions};
use vstd::prelude::*;

verus! {

/// What is done with the values of a text field.
#[derive(Clone, Copy, Debug, PartialEq, Eq, Structural)]
pub struct FieldOptions {
    /// The field is searchable.
    pub indexed: bool,
    /// The field's value is kept verbatim and comes back with search results.
    pub stored: bool,
}

/// A text field: its name and its options.
#[derive(Clone, Debug)]
pub struct FieldSpec {
    pub name: String,
    pub options: FieldOptions,
}

impl View for FieldSpec {
    type V = FieldView;

    open spec fn view(&self) -> FieldView {
        FieldView { name: self.name@, indexed: self.options.indexed, stored: self.options.stored }
    }
}

/// The fields of a list, each as its view.
pub open spec fn field_views(fields: Seq<FieldSpec>) -> Seq<FieldView> {
    Seq::new(fields.len(), |i: int| fields[i]@)
}

/// Why a list of fields is not a schema.
#[derive(Clone, Debug)]
pub enum SchemaError {
    /// The field at this position has an empty name.
    EmptyFieldName { position: usize },
    /// The field at this position has the name of an earlier field.
    DuplicateFieldName { position: usize, name: String },
    /// The field at this position has a name the search engine does not
    /// take: one that starts with `-`.
    UnsupportedFieldName { position: usize, name: String },
    /// There are more fields than the search engine can number.
    TooManyFields { count: usize },
}

/// Why an index cannot be used with a schema.
#[derive(Clone, Copy, Debug, PartialEq, Eq, Structural)]
pub enum SchemaMismatchError {
    /// The index has another number of fields.
    FieldCount { expected: usize, found: usize },
    /// The field at this position differs in name or options.
    Field { position: usize },
}

/// The largest number of fields a schema can have: the search engine numbers
/// fields with 32 bits.
pub const MAX_FIELDS: usize = 0xffff_ffff;

/// The field at position `i` cannot be part of a schema, given the fields
/// before it: its name is empty or already taken.
pub open spec fn faulty_at(fields: Seq<FieldView>, i: int) -> bool {
    fields[i].name.len() == 0 || exists|j: int|
        0 <= j < i && (#[trigger] fields[j]).name == fields[i].name
}

/// No field has an empty name and no two fields share a name.
pub open spec fn valid_fields(fields: Seq<FieldView>) -> bool {
    forall|i: int| 0 <= i < fields.len() ==> !faulty_at(fields, i)
}

/// The engine takes a field of this name.
pub open spec fn engine_takes(name: Seq<char>) -> bool {
    name.len() > 0 && name[0] != '-'
}

/// The fields of an index made without overrides: a searchable, stored
/// `title` and a searchable `body`.
pub open spec fn default_fields() -> Seq<FieldView> {
    seq![
        FieldView { name: "title"@, indexed: true, stored: true },
        FieldView { name: "body"@, indexed: true, stored: false },
    ]
}

/// An ordered set of named text fields. No name is empty and no name occurs
/// twice.
#[derive(Debug)]
pub struct DocSchema {
    fields: Vec<FieldSpec>,
}

impl View for DocSchema {
    type V = Seq<FieldView>;

    closed spec fn view(&self) -> Seq<FieldView> {
        field_views(self.fields@)
    }
}

impl FieldOptions {
    /// Options with the given capabilities.
    pub fn new(indexed: bool, stored: bool) -> (options: FieldOptions)
        ensures
            options.indexed == indexed,
            options.stored == stored,
    {
        FieldOptions { indexed, stored }
    }

    /// The engine's options for a text field with these capabilities.
    pub fn engine_options(&self) -> (options: TextOptions)
        ensures
            options_indexed(options) == self.indexed,
            options_stored(options) == self.stored,
    {
        let mut options = bare_options();
        if self.indexed {
            options = with_indexing(options);
        }
        if self.stored {
            options = with_storing(options);
        }
        options
    }
}

impl FieldSpec {
    /// A field of the given name and capabilities.
    pub fn new(name: String, indexed: bool, stored: bool) -> (field: FieldSpec)
        ensures
            field.name == name,
            field.options.indexed == indexed,
            field.options.stored == stored,
    {
        FieldSpec { name, options: FieldOptions { indexed, stored } }
    }

    /// Whether two fields have the same name and options.
    pub fn same_as(&self, other: &FieldSpec) -> (same: bool)
        ensures
            same == (self@ == other@),
    {
        self.name == other.name && self.options.indexed == other.options.indexed
            && self.options.stored == other.options.stored
    }
}

/// Whether the name at position `i` already occurs before it.
fn taken_before(fields: &Vec<FieldSpec>, i: usize) -> (taken: bool)
    requires
        i < fields.len(),
    ensures
        taken == exists|j: int|
            0 <= j < i && (#[trigger] field_views(fields@)[j]).name == field_views(
                fields@,
            )[i as int].name,
{
    let mut j: usize = 0;
    while j < i
        invariant
            j <= i < fields.len(),
            forall|k: int|
                0 <= k < j ==> (#[trigger] field_views(fields@)[k]).name != field_views(
                    fields@,
                )[i as int].name,
        decreases i - j,
    {
        if fields[j].name == fields[i].name {
            assert(field_views(fields@)[j as int].name == field_views(fields@)[i as int].name);
            return true;
        }
        j += 1;
    }
    false
}

/// What `build_doc_schema` returns for a list of overrides.
pub open spec fn built_from(fields: Seq<FieldView>, built: Result<DocSchema, SchemaError>) -> bool {
    match built {
        Ok(schema) => fields.len() <= MAX_FIELDS && valid_fields(fields) && schema@ == fields,
        Err(SchemaError::TooManyFields { count }) => count == fields.len() && count > MAX_FIELDS,
        Err(SchemaError::EmptyFieldName { position }) => {
            &&& fields.len() <= MAX_FIELDS
            &&& position < fields.len()
            &&& forall|k: int| 0 <= k < position ==> !faulty_at(fields, k)
            &&& fields[position as int].name.len() == 0
        },
        Err(SchemaError::DuplicateFieldName { position, name }) => {
            &&& fields.len() <= MAX_FIELDS
            &&& position < fields.len()
            &&& forall|k: int| 0 <= k < position ==> !faulty_at(fields, k)
            &&& fields[position as int].name.len() > 0
            &&& faulty_at(fields, position as int)
            &&& name@ == fields[position as int].name
        },
        Err(SchemaError::UnsupportedFieldName { .. }) => false,
    }
}

/// What a schema check answers for an expected and a found list of fields:
/// success when they are equal, else the count mismatch or the first position
/// at which they differ.
pub open spec fn mismatch_of(
    expected: Seq<FieldView>,
    found: Seq<FieldView>,
    checked: Result<(), SchemaMismatchError>,
) -> bool {
    match checked {
        Ok(()) => expected == found,
        Err(SchemaMismatchError::FieldCount { expected: e, found: f }) => {
            &&& e == expected.len()
            &&& f == found.len()
            &&& e != f
        },
        Err(SchemaMismatchError::Field { position }) => {
            &&& expected.len() == found.len()
            &&& position < expected.len()
            &&& forall|k: int| 0 <= k < position ==> expected[k] == found[k]
            &&& expected[position as int] != found[position as int]
        },
    }
}

/// Builds the schema of an index. Without overrides it is the default schema.
/// With overrides it holds exactly the given fields, in the given order, and
/// nothing of the default; the first field whose name is empty or repeats an
/// earlier name is reported instead.
pub fn build_doc_schema(overrides: Option<Vec<FieldSpec>>) -> (built: Result<
    DocSchema,
    SchemaError,
>)
    ensures
        match overrides {
            None => built matches Ok(schema) && schema@ == default_fields(),
            Some(fields) => built_from(field_views(fields@), built),
        },
{
    match overrides {
        None => Ok(DocSchema::default_schema()),
        Some(fields) => DocSchema::from_fields(fields),
    }
}

impl DocSchema {
    #[verifier::type_invariant]
    spec fn well_formed(self) -> bool {
        self.fields@.len() <= MAX_FIELDS && valid_fields(field_views(self.fields@))
    }

    /// The schema used when no overrides are given.
    pub fn default_schema() -> (schema: DocSchema)
        ensures
            schema@ == default_fields(),
    {
        let mut fields: Vec<FieldSpec> = Vec::new();
        fields.push(FieldSpec::new("title".to_owned(), true, true));
        fields.push(FieldSpec::new("body".to_owned(), true, false));
        proof {
            reveal_strlit("title");
            reveal_strlit("body");
        }
        DocSchema { fields }
    }

    /// The schema of exactly the given fields, in the given order, or the
    /// first field whose name is empty or repeats an earlier name.
    pub fn from_fields(fields: Vec<FieldSpec>) -> (built: Result<DocSchema, SchemaError>)
        ensures
            built_from(field_views(fields@), built),
    {
        if fields.len() > MAX_FIELDS {
            return Err(SchemaError::TooManyFields { count: fields.len() });
        }
        let mut i: usize = 0;
        while i < fields.len()
            invariant
                i <= fields.len() <= MAX_FIELDS,
                forall|k: int| 0 <= k < i ==> !faulty_at(field_views(fields@), k),
            decreases fields.len() - i,
        {
            if fields[i].name.as_str().is_empty() {
                return Err(SchemaError::EmptyFieldName { position: i });
            }
            if taken_before(&fields, i) {
                return Err(
                    SchemaError::DuplicateFieldName { position: i, name: fields[i].name.clone() },
                );
            }
            i += 1;
        }
        Ok(DocSchema { fields })
    }

    /// The fields, in schema order.
    pub fn fields(&self) -> (fields: &Vec<FieldSpec>)
        ensures
            field_views(fields@) == self@,
            valid_fields(self@),
            self@.len() <= MAX_FIELDS,
    {
        proof {
            use_type_invariant(self);
        }
        &self.fields
    }

    /// The number of fields.
    pub fn len(&self) -> (n: usize)
        ensures
            n == self@.len(),
            n <= MAX_FIELDS,
    {
        proof {
            use_type_invariant(self);
        }
        self.fields.len()
    }

    /// The position of the field of a given name, if the schema has one.
    pub fn position_of(&self, name: &String) -> (position: Option<usize>)
        ensures
            match position {
                Some(i) => i < self@.len() && self@[i as int].name == name@,
                None => forall|i: int| 0 <= i < self@.len() ==> (#[trigger] self@[i]).name != name@,
            },
    {
        let mut i: usize = 0;
        while i < self.fields.len()
            invariant
                i <= self.fields.len(),
                forall|k: int| 0 <= k < i ==> (#[trigger] self@[k]).name != name@,
            decreases self.fields.len() - i,
        {
            if self.fields[i].name == *name {
                return Some(i);
            }
            i += 1;
        }
        None
    }

    /// The positions of the searchable fields, ascending. A query that names no
    /// field is matched against these.
    pub fn search_fields(&self) -> (positions: Vec<usize>)
        ensures
            forall|k: int, l: int| 0 <= k < l < positions@.len() ==> positions@[k] < positions@[l],
            forall|k: int|
                0 <= k < positions@.len() ==> positions@[k] < self@.len() && (
                #[trigger] self@[positions@[k] as int]).indexed,
            forall|i: int|
                0 <= i < self@.len() && (#[trigger] self@[i]).indexed ==> positions@.contains(
                    i as usize,
                ),
    {
        let mut positions: Vec<usize> = Vec::new();
        let mut i: usize = 0;
        while i < self.fields.len()
            invariant
                i <= self.fields.len(),
                forall|k: int, l: int|
                    0 <= k < l < positions@.len() ==> positions@[k] < positions@[l],
                forall|k: int| 0 <= k < positions@.len() ==> positions@[k] < i,
                forall|k: int|
                    0 <= k < positions@.len() ==> (#[trigger] self@[positions@[k] as int]).indexed,
                forall|j: int|
                    0 <= j < i && (#[trigger] self@[j]).indexed ==> positions@.contains(j as usize),
            decreases self.fields.len() - i,
        {
            if self.fields[i].options.indexed {
                let ghost before = positions@;
                positions.push(i);
                assert forall|j: int|
                    0 <= j < i + 1 && (#[trigger] self@[j]).indexed implies positions@.contains(
                    j as usize,
                ) by {
                    if j < i {
                        let k = choose|k: int| 0 <= k < before.len() && before[k] == j as usize;
                        assert(positions@[k] == j as usize);
                    } else {
                        assert(positions@[before.len() as int] == j as usize);
                    }
                }
            }
            i += 1;
        }
        positions
    }

    /// The engine's schema with the same fields in the same order. The engine
    /// takes no field name that starts with `-`; the first such field is
    /// reported instead.
    pub fn engine_schema(&self) -> (made: Result<Schema, SchemaError>)
        ensures
            match made {
                Ok(schema) => {
                    &&& schema_fields(schema) == self@
                    &&& forall|i: int|
                        0 <= i < self@.len() ==> engine_takes((#[trigger] self@[i]).name)
                },
                Err(SchemaError::UnsupportedFieldName { position, name }) => {
                    &&& position < self@.len()
                    &&& forall|k: int|
                        0 <= k < position ==> engine_takes((#[trigger] self@[k]).name)
                    &&& !engine_takes(self@[position as int].name)
                    &&& name@ == self@[position as int].name
                },
                Err(_) => false,
            },
    {
        proof {
            use_type_invariant(self);
        }
        let mut builder = new_builder();
        let mut i: usize = 0;
        while i < self.fields.len()
            invariant
                i <= self.fields.len(),
                valid_fields(self@),
                builder_fields(builder) == self@.take(i as int),
                forall|k: int| 0 <= k < i ==> engine_takes((#[trigger] self@[k]).name),
            decreases self.fields.len() - i,
        {
            let field = &self.fields[i];
            assert(!faulty_at(self@, i as int));
            if field.name.as_str().get_char(0) == '-' {
                return Err(
                    SchemaError::UnsupportedFieldName { position: i, name: field.name.clone() },
                );
            }
            let options = field.options.engine_options();
            add_text_field(&mut builder, field.name.as_str(), options);
            i += 1;
        }
        Ok(finish_builder(builder))
    }

    /// Checks that an index's fields are this schema's: the same names with
    /// the same options, in the same order.
    pub fn check_fields(&self, found: &Vec<FieldSpec>) -> (checked: Result<(), SchemaMismatchError>)
        ensures
            mismatch_of(self@, field_views(found@), checked),
    {
        if found.len() != self.fields.len() {
            return Err(
                SchemaMismatchError::FieldCount { expected: self.fields.len(), found: found.len() },
            );
        }
        let mut i: usize = 0;
        while i < self.fields.len()
            invariant
                i <= self.fields.len(),
                found.len() == self.fields.len(),
                forall|k: int| 0 <= k < i ==> self@[k] == field_views(found@)[k],
            decreases self.fields.len() - i,
        {
            if !self.fields[i].same_as(&found[i]) {
                return Err(SchemaMismatchError::Field { position: i });
            }
            i += 1;
        }
        assert(self@ =~= field_views(found@));
        Ok(())
    }

    /// Checks that an index opened by the engine was built against this
    /// schema.
    pub fn check_engine_schema(&self, found: &Schema) -> (checked: Result<(), SchemaMismatchError>)
        ensures
            mismatch_of(self@, schema_fields(*found), checked),
    {
        let listed = list_fields(found);
        let mut fields: Vec<FieldSpec> = Vec::new();
        let mut i: usize = 0;
        while i < listed.len()
            invariant
                i <= listed.len(),
                listed@.len() == schema_fields(*found).len(),
                forall|k: int|
                    0 <= k < listed@.len() ==> {
                        &&& (#[trigger] listed@[k]).0@ == schema_fields(*found)[k].name
                        &&& listed@[k].1 == schema_fields(*found)[k].indexed
                        &&& listed@[k].2 == schema_fields(*found)[k].stored
                    },
                fields@.len() == i,
                forall|k: int| 0 <= k < i ==> (#[trigger] fields@[k])@ == schema_fields(*found)[k],
            decreases listed.len() - i,
        {
            let entry = &listed[i];
            fields.push(FieldSpec::new(entry.0.clone(), entry.1, entry.2));
            i += 1;
        }
        assert(field_views(fields@) =~= schema_fields(*found));
        self.check_fields(&fields)
    }
}

} // verus!
