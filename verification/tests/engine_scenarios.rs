use tantivy::collector::TopDocs;
use tantivy::directory::MmapDirectory;
use tantivy::query::QueryParser;
use tantivy::schema::{Field, OwnedValue};
use tantivy::{Document as EngineDocument, Index, IndexSettings, IndexWriter, TantivyDocument};
use vecta::document::{build, classify, Built, Document, FieldValue};
use vecta::errors::CoreError;
use vecta::merge::{plan_merge_all, MergePlan};
use vecta::schema::{build_doc_schema, DocSchema, FieldSpec, SchemaMismatchError};
use vecta::search::{plan_search, Hit, SearchPlan, SearchResult};
use vecta::store::{check_opened, schema_for_creation};

fn stored_values(doc: &TantivyDocument, schema: &DocSchema) -> Vec<FieldValue> {
    doc.iter_fields_and_values()
        .map(|(field, value)| FieldValue {
            field: schema.fields()[field.field_id() as usize].name.clone(),
            text: match value {
                OwnedValue::Str(text) => text.clone(),
                other => panic!("not text: {:?}", other),
            },
        })
        .collect()
}

fn search(index: &Index, schema: &DocSchema, text: &str, limit: Option<usize>) -> SearchResult {
    match plan_search(limit) {
        SearchPlan::Nothing => SearchResult::empty(),
        SearchPlan::Run { limit } => {
            let searcher = index.reader().unwrap().searcher();
            let fields: Vec<Field> = schema
                .search_fields()
                .into_iter()
                .map(|position| Field::from_field_id(position as u32))
                .collect();
            let query = QueryParser::for_index(index, fields).parse_query(text).unwrap();
            let found = searcher.search(&query, &TopDocs::with_limit(limit)).unwrap();
            let hits = found
                .into_iter()
                .map(|(score, address)| {
                    let doc: TantivyDocument = searcher.doc(address).unwrap();
                    Hit {
                        score_bits: score.to_bits(),
                        segment: address.segment_ord,
                        doc: address.doc_id,
                        stored: stored_values(&doc, schema),
                    }
                })
                .collect();
            SearchResult::rank(hits, limit)
        }
    }
}

fn add_file(writer: &mut IndexWriter, schema: &DocSchema, path: &str, bytes: &[u8]) -> bool {
    match build(path.to_string(), classify(Ok(bytes.to_vec()))) {
        Built::Doc(doc) => {
            writer.add_document(doc.engine_document(schema).unwrap()).unwrap();
            true
        }
        Built::Skip(_) => false,
    }
}

fn titles(result: &SearchResult) -> Vec<String> {
    result.hits().iter().map(|h| h.stored_text(&"title".to_string()).unwrap().clone()).collect()
}

fn ram_index(schema: &DocSchema) -> (Index, IndexWriter) {
    let index = Index::create_in_ram(schema_for_creation(schema).unwrap());
    let writer = index.writer_with_num_threads(1, 15_000_000).unwrap();
    (index, writer)
}

#[test]
fn indexed_notes_file_is_found_by_a_word_of_its_body() {
    let schema = build_doc_schema(None).unwrap();
    let (index, mut writer) = ram_index(&schema);
    assert!(add_file(&mut writer, &schema, "/corpus/notes.txt", b"hello world"));
    writer.commit().unwrap();
    let result = search(&index, &schema, "hello", None);
    assert_eq!(result.len(), 1);
    assert_eq!(titles(&result), vec!["/corpus/notes.txt".to_string()]);
    assert!(search(&index, &schema, "absent", None).is_empty());
}

#[test]
fn committed_document_is_found_by_its_exact_title() {
    let schema = build_doc_schema(None).unwrap();
    let (index, mut writer) = ram_index(&schema);
    assert!(add_file(&mut writer, &schema, "/corpus/notes.txt", b"hello world"));
    assert!(add_file(&mut writer, &schema, "/corpus/other.txt", b"something else"));
    assert!(search(&index, &schema, "\"/corpus/notes.txt\"", None).is_empty());
    writer.commit().unwrap();
    let result = search(&index, &schema, "title:\"/corpus/notes.txt\"", None);
    assert_eq!(titles(&result), vec!["/corpus/notes.txt".to_string()]);
}

#[test]
fn body_is_searchable_but_not_stored() {
    let schema = build_doc_schema(None).unwrap();
    let (index, mut writer) = ram_index(&schema);
    assert!(add_file(&mut writer, &schema, "/corpus/notes.txt", b"hello world"));
    writer.commit().unwrap();
    let result = search(&index, &schema, "body:world", None);
    assert_eq!(result.len(), 1);
    let hit = &result.hits()[0];
    assert_eq!(hit.stored.len(), 1);
    assert_eq!(hit.stored_text(&"body".to_string()), None);
}

#[test]
fn binary_file_adds_no_document() {
    let schema = build_doc_schema(None).unwrap();
    let (index, mut writer) = ram_index(&schema);
    assert!(!add_file(&mut writer, &schema, "/corpus/blob.bin", &[0xff, 0x00, 0xfe]));
    assert!(add_file(&mut writer, &schema, "/corpus/a.txt", b"blob of text"));
    writer.commit().unwrap();
    assert_eq!(index.reader().unwrap().searcher().num_docs(), 1);
    assert_eq!(titles(&search(&index, &schema, "blob", None)), vec!["/corpus/a.txt".to_string()]);
}

#[test]
fn index_without_commits_answers_with_an_empty_result() {
    let schema = build_doc_schema(None).unwrap();
    let (index, _writer) = ram_index(&schema);
    let result = search(&index, &schema, "hello", None);
    assert!(result.is_empty());
    assert_eq!(result.len(), 0);
}

#[test]
fn results_come_best_first_and_stop_at_the_limit() {
    let schema = build_doc_schema(None).unwrap();
    let (index, mut writer) = ram_index(&schema);
    assert!(add_file(&mut writer, &schema, "/c/one.txt", b"apple"));
    assert!(add_file(&mut writer, &schema, "/c/two.txt", b"apple apple apple pear"));
    assert!(add_file(&mut writer, &schema, "/c/three.txt", b"pear plum cherry and more words"));
    assert!(add_file(&mut writer, &schema, "/c/four.txt", b"apple plum"));
    writer.commit().unwrap();
    let all = search(&index, &schema, "apple", None);
    assert_eq!(all.len(), 3);
    let scores: Vec<f32> = all.hits().iter().map(|h| f32::from_bits(h.score_bits)).collect();
    assert!(scores[0] >= scores[1] && scores[1] >= scores[2]);
    let two = search(&index, &schema, "apple", Some(2));
    assert_eq!(titles(&two), titles(&all)[..2].to_vec());
    assert!(search(&index, &schema, "apple", Some(0)).is_empty());
}

#[test]
fn fresh_index_reopens_empty_with_the_same_schema() {
    let schema = build_doc_schema(None).unwrap();
    let directory = MmapDirectory::create_from_tempdir().unwrap();
    let created = Index::create(
        directory.clone(),
        schema_for_creation(&schema).unwrap(),
        IndexSettings::default(),
    )
    .unwrap();
    assert_eq!(created.reader().unwrap().searcher().num_docs(), 0);
    let reopened = Index::open(directory).unwrap();
    assert!(check_opened("index".to_string(), &schema, &reopened.schema()).is_ok());
    assert_eq!(reopened.reader().unwrap().searcher().num_docs(), 0);
    assert!(search(&reopened, &schema, "hello", None).is_empty());
}

#[test]
fn reopening_with_another_schema_is_a_mismatch() {
    let schema = build_doc_schema(None).unwrap();
    let other = build_doc_schema(Some(vec![
        FieldSpec::new("title".to_string(), true, true),
        FieldSpec::new("body".to_string(), true, true),
    ]))
    .unwrap();
    let index = Index::create_in_ram(schema_for_creation(&other).unwrap());
    match check_opened("./index".to_string(), &schema, &index.schema()) {
        Err(CoreError::SchemaMismatch { path, mismatch }) => {
            assert_eq!(path, "./index");
            assert_eq!(mismatch, SchemaMismatchError::Field { position: 1 });
        }
        other => panic!("unexpected: {:?}", other),
    }
}

#[test]
fn merging_a_single_segment_changes_nothing() {
    let schema = build_doc_schema(None).unwrap();
    let (index, mut writer) = ram_index(&schema);
    assert!(add_file(&mut writer, &schema, "/corpus/notes.txt", b"hello world"));
    writer.commit().unwrap();
    let live: Vec<String> =
        index.searchable_segment_ids().unwrap().iter().map(|id| id.uuid_string()).collect();
    assert_eq!(live.len(), 1);
    assert!(matches!(plan_merge_all(&live), MergePlan::Nothing));
    assert_eq!(index.reader().unwrap().searcher().num_docs(), 1);
    assert_eq!(
        titles(&search(&index, &schema, "hello", None)),
        vec!["/corpus/notes.txt".to_string()]
    );
}

#[test]
fn default_merge_folds_all_segments_into_one() {
    let schema = build_doc_schema(None).unwrap();
    let (index, mut writer) = ram_index(&schema);
    assert!(add_file(&mut writer, &schema, "/corpus/a.txt", b"hello one"));
    writer.commit().unwrap();
    assert!(add_file(&mut writer, &schema, "/corpus/b.txt", b"hello two"));
    writer.commit().unwrap();
    let segments = index.searchable_segment_ids().unwrap();
    let live: Vec<String> = segments.iter().map(|id| id.uuid_string()).collect();
    assert_eq!(live.len(), 2);
    let before = titles(&search(&index, &schema, "hello", None));
    match plan_merge_all(&live) {
        MergePlan::Merge { targets } => {
            assert_eq!(targets, live);
            let chosen: Vec<_> = segments
                .iter()
                .filter(|id| targets.contains(&id.uuid_string()))
                .cloned()
                .collect();
            writer.merge(&chosen).wait().unwrap();
        }
        MergePlan::Nothing => panic!("two segments must be merged"),
    }
    let after_ids: Vec<String> =
        index.searchable_segment_ids().unwrap().iter().map(|id| id.uuid_string()).collect();
    assert_eq!(after_ids.len(), 1);
    assert!(matches!(plan_merge_all(&after_ids), MergePlan::Nothing));
    let mut after = titles(&search(&index, &schema, "hello", None));
    let mut expected = before;
    after.sort();
    expected.sort();
    assert_eq!(after, expected);
    assert_eq!(index.reader().unwrap().searcher().num_docs(), 2);
}

#[test]
fn creation_is_refused_for_a_name_the_engine_does_not_take() {
    let schema =
        build_doc_schema(Some(vec![FieldSpec::new("-title".to_string(), true, true)])).unwrap();
    match schema_for_creation(&schema) {
        Err(CoreError::Schema(vecta::schema::SchemaError::UnsupportedFieldName {
            position,
            name,
        })) => {
            assert_eq!(position, 0);
            assert_eq!(name, "-title");
        }
        other => panic!("unexpected: {:?}", other.map(|_| ())),
    }
}

#[test]
fn document_of_a_custom_schema_is_indexed() {
    let schema = build_doc_schema(Some(vec![
        FieldSpec::new("path".to_string(), false, true),
        FieldSpec::new("text".to_string(), true, false),
    ]))
    .unwrap();
    let (index, mut writer) = ram_index(&schema);
    let doc = Document {
        values: vec![
            FieldValue { field: "text".to_string(), text: "quick brown fox".to_string() },
            FieldValue { field: "path".to_string(), text: "/a".to_string() },
        ],
    };
    writer.add_document(doc.engine_document(&schema).unwrap()).unwrap();
    writer.commit().unwrap();
    let result = search(&index, &schema, "fox", None);
    assert_eq!(result.len(), 1);
    assert_eq!(result.hits()[0].stored_text(&"path".to_string()), Some(&"/a".to_string()));
}
