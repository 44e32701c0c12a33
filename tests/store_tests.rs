use picture_index::batch::{FileOutcome, IndexError, RootIndexer};
use picture_index::scan::{select_candidates, WalkEntry};
use picture_index::search::{collect_thumbnails, merge_results, ShardResult, ShardRow, ThumbnailLookup};
use picture_index::config::default_config;
use picture_index::extract::{
    data_url_from, embedded_metadata, file_data_url, find_description, lookup_metadata, metadata_from_parsed,
    metadata_from_png, metadata_view, thumbnail_text, StoredMetadata, TextChunk,
};
use picture_index::model::SearchFolder;
use picture_index::query::Queries;
use picture_index::registry::{finish_unregister, new_root, plan_unregister};
use picture_index::search::compile_inputs;
use picture_index::search::PredicateInput;
use picture_index::text::push_decimal;

fn chunk(k: &str, t: &str) -> TextChunk {
    TextChunk { keyword: k.to_string(), text: t.to_string() }
}

#[test]
fn json_metadata_is_reencoded() {
    let got = embedded_metadata(&vec![chunk("Author", "x"), chunk("Description", "{ \"world\" : {\"name\": \"Overworld\"} }")]);
    assert_eq!(got, "{\"world\":{\"name\":\"Overworld\"}}");
}

#[test]
fn non_json_metadata_is_kept_verbatim() {
    assert_eq!(embedded_metadata(&vec![chunk("Description", "not json {")]), "not json {");
    assert_eq!(metadata_from_parsed("raw".to_string(), None), "raw");
    assert_eq!(metadata_from_parsed("raw".to_string(), Some("{}".to_string())), "{}");
}

#[test]
fn missing_description_gives_empty_metadata() {
    assert_eq!(embedded_metadata(&vec![chunk("Comment", "{}")]), "");
    assert_eq!(embedded_metadata(&vec![]), "");
    assert_eq!(find_description(&vec![chunk("Description", "a"), chunk("Description", "b")]), Some("a".to_string()));
}

#[test]
fn thumbnail_text_is_base64() {
    assert_eq!(thumbnail_text(&b"abc".to_vec()), "YWJj");
    assert_eq!(thumbnail_text(&b"ab".to_vec()), "YWI=");
    assert_eq!(thumbnail_text(&vec![]), "");
}

#[test]
fn data_urls_carry_mime_type() {
    assert_eq!(file_data_url("/p/x.png", &b"abc".to_vec()), "data:image/png;base64,YWJj");
    assert_eq!(file_data_url("/p/x.JPG", &b"abc".to_vec()), "data:image/jpeg;base64,YWJj");
    assert_eq!(file_data_url("/p/x", &b"abc".to_vec()), "data:application/octet-stream;base64,YWJj");
    assert_eq!(data_url_from("image/gif", "R0"), "data:image/gif;base64,R0");
}

#[test]
fn metadata_lookup() {
    let row = Some(StoredMetadata { metadata_json: Some("{\"a\":1}".to_string()), file_created_at: None });
    let found = lookup_metadata(&row).unwrap();
    let v = metadata_view("/p/x.png", found, &b"abc".to_vec());
    assert_eq!(v.metadata, "{\"a\":1}");
    assert_eq!(v.data_url, "data:image/png;base64,YWJj");
    assert_eq!(v.file_created_at, "");
    let row = Some(StoredMetadata { metadata_json: Some("m".to_string()), file_created_at: Some("t".to_string()) });
    assert_eq!(lookup_metadata(&row).unwrap().file_created_at, "t");
    let row = Some(StoredMetadata { metadata_json: None, file_created_at: Some("t".to_string()) });
    assert!(matches!(lookup_metadata(&row), Err(IndexError::NotFound)));
    assert!(matches!(lookup_metadata(&None), Err(IndexError::NotFound)));
}

fn png_with_text(chunks: &[(&str, &str)]) -> Vec<u8> {
    let mut out = Vec::new();
    {
        let mut enc = png::Encoder::new(&mut out, 1, 1);
        enc.set_color(png::ColorType::Grayscale);
        enc.set_depth(png::BitDepth::Eight);
        for (k, t) in chunks {
            enc.add_itxt_chunk(k.to_string(), t.to_string()).unwrap();
        }
        let mut w = enc.write_header().unwrap();
        w.write_image_data(&[0]).unwrap();
    }
    out
}

#[test]
fn png_description_chunk_becomes_metadata() {
    let bytes = png_with_text(&[("Author", "me"), ("Description", "{ \"world\": {\"name\": \"End\"} }")]);
    assert_eq!(metadata_from_png(&bytes), "{\"world\":{\"name\":\"End\"}}");
    let bytes = png_with_text(&[("Description", "plain words")]);
    assert_eq!(metadata_from_png(&bytes), "plain words");
    assert_eq!(metadata_from_png(&png_with_text(&[])), "");
    assert_eq!(metadata_from_png(&b"not a png".to_vec()), "");
}

#[test]
fn thumbnail_text_length() {
    for n in 0..10usize {
        assert_eq!(thumbnail_text(&vec![7u8; n]).len(), 4 * ((n + 2) / 3));
    }
}

fn folder(id: i32, path: &str, uuid: &str) -> SearchFolder {
    SearchFolder { id, path: path.to_string(), uuid: uuid.to_string() }
}

#[test]
fn unregister_unknown_id_is_not_found() {
    assert!(matches!(plan_unregister(&vec![folder(1, "/a", "u1")], 2), Err(IndexError::NotFound)));
    assert!(matches!(plan_unregister(&vec![], 1), Err(IndexError::NotFound)));
}

#[test]
fn unregister_deletes_row_even_if_shard_removal_fails() {
    let rows = vec![folder(1, "/a", "u1"), folder(7, "/photos", "u7")];
    let plan = plan_unregister(&rows, 7).unwrap();
    assert_eq!(plan.shard, "u7");
    assert_eq!(finish_unregister(&plan, false), 7);
    assert_eq!(finish_unregister(&plan, true), 7);
}

#[test]
fn registering_twice_gives_two_stable_ids() {
    let a = new_root("/photos");
    let b = new_root("/photos");
    assert_eq!(a.path, "/photos");
    assert_eq!(a.uuid.len(), 36);
    assert_ne!(a.uuid, b.uuid);
}

#[test]
fn default_settings() {
    let c = default_config();
    assert!(!c.feature_flags.update_db_when_startup);
    assert_eq!(c.feature_flags.language, "ja");
}

#[test]
fn decimal_text() {
    let mut s = "n".to_string();
    push_decimal(&mut s, 0);
    push_decimal(&mut s, 1907);
    assert_eq!(s, "n01907");
    let mut t = String::new();
    push_decimal(&mut t, u64::MAX);
    assert_eq!(t, u64::MAX.to_string());
}

fn shard() -> rusqlite::Connection {
    let q = Queries::load();
    let conn = rusqlite::Connection::open_in_memory().unwrap();
    conn.execute_batch(q.create_sub_index).unwrap();
    conn
}

fn upsert(conn: &rusqlite::Connection, path: &str, size: i64, meta: &str, created: &str, stamp: &str) {
    let q = Queries::load();
    conn.execute(
        q.insert_image,
        (path, "QUJD", 10, 10, size, meta, created, stamp, stamp),
    )
    .unwrap();
}

#[test]
fn second_write_of_a_path_replaces_its_record() {
    let conn = shard();
    upsert(&conn, "/photos/a.png", 100, "{}", "c1", "2024-01-01T00:00:00+00:00");
    upsert(&conn, "/photos/a.png", 150, "{}", "c2", "2024-02-01T00:00:00+00:00");
    let (n, size, created, updated): (i64, i64, String, String) = conn
        .query_row(
            "SELECT COUNT(*), MAX(file_size), MAX(file_created_at), MAX(updated_at) FROM images WHERE file_path = '/photos/a.png'",
            [],
            |r| Ok((r.get(0)?, r.get(1)?, r.get(2)?, r.get(3)?)),
        )
        .unwrap();
    assert_eq!(n, 1);
    assert_eq!(size, 150);
    assert_eq!(created, "c1");
    assert_eq!(updated, "2024-02-01T00:00:00+00:00");
}

fn run(conn: &rusqlite::Connection, inputs: Vec<PredicateInput>) -> Vec<String> {
    let q = compile_inputs(&inputs);
    let mut stmt = conn.prepare(&q.text).unwrap();
    let rows = stmt
        .query_map(rusqlite::params_from_iter(q.params.iter()), |r| r.get::<_, String>(0))
        .unwrap();
    let mut v: Vec<String> = rows.map(|r| r.unwrap()).collect();
    v.sort();
    v
}

fn pred(logic: Option<&str>, field: &str, op: &str, value: &str) -> PredicateInput {
    PredicateInput {
        logic: logic.map(|s| s.to_string()),
        field: Some(field.to_string()),
        operator: Some(op.to_string()),
        value: Some(value.to_string()),
    }
}

#[test]
fn compiled_query_runs_on_a_shard() {
    let conn = shard();
    upsert(&conn, "/w/over.png", 1, "{\"world\":{\"name\":\"Overworld\"},\"players\":[]}", "c", "t");
    upsert(&conn, "/w/steve.png", 1, "{\"world\":{\"name\":\"Nether\"},\"players\":[{\"displayName\":\"xSteveX\"}]}", "c", "t");
    upsert(&conn, "/w/alex.png", 1, "{\"world\":{\"name\":\"End\"},\"players\":[{\"displayName\":\"Alex\"}]}", "c", "t");
    upsert(&conn, "/w/raw.png", 1, "Overworld", "c", "t");
    upsert(&conn, "/w/none.png", 1, "", "c", "t");
    let got = run(&conn, vec![pred(None, "world", "EQ", "Overworld"), pred(Some("OR"), "player", "LIKE", "Steve")]);
    assert_eq!(got, vec!["/w/over.png".to_string(), "/w/steve.png".to_string()]);
    let all = run(&conn, vec![]);
    assert_eq!(all, vec!["/w/alex.png".to_string(), "/w/over.png".to_string(), "/w/steve.png".to_string()]);
    let by_path = run(&conn, vec![pred(None, "path", "EQ", "%alex%")]);
    assert_eq!(by_path, vec!["/w/alex.png".to_string()]);
}

#[test]
fn registry_tables_hold_roots_and_ignore_roots() {
    let q = Queries::load();
    let conn = rusqlite::Connection::open_in_memory().unwrap();
    conn.execute_batch(q.create_tables).unwrap();
    conn.execute(q.insert_folder, ("/photos", "u1")).unwrap();
    conn.execute(q.insert_folder, ("/photos", "u2")).unwrap();
    conn.execute(q.insert_ignore_folder, ("/photos/tmp", "u3")).unwrap();
    let count = |sql: &str| -> i64 { conn.query_row(sql, [], |r| r.get(0)).unwrap() };
    assert_eq!(count("SELECT COUNT(*) FROM search_folders"), 2);
    conn.execute(q.delete_folder, (1,)).unwrap();
    let mut stmt = conn.prepare(q.select_all_folders).unwrap();
    let left: Vec<(i32, String, String)> =
        stmt.query_map([], |r| Ok((r.get(0)?, r.get(1)?, r.get(2)?))).unwrap().map(|r| r.unwrap()).collect();
    assert_eq!(left, vec![(2, "/photos".to_string(), "u2".to_string())]);
    let mut stmt = conn.prepare(q.select_all_ignore_folders).unwrap();
    let ign: Vec<String> = stmt.query_map([], |r| r.get(1)).unwrap().map(|r| r.unwrap()).collect();
    assert_eq!(ign, vec!["/photos/tmp".to_string()]);
    conn.execute(q.delete_ignore_folder, (3,)).unwrap();
}

#[test]
fn one_image_under_a_root_indexes_and_is_found() {
    let walked = vec![
        WalkEntry { path: "/photos".to_string(), is_file: false },
        WalkEntry { path: "/photos/shot.png".to_string(), is_file: true },
    ];
    let files = select_candidates(&walked, &vec![]);
    assert_eq!(files, vec!["/photos/shot.png".to_string()]);

    let conn = shard();
    let mut run = RootIndexer::new(files.len());
    let (s, e) = run.next_chunk().unwrap();
    assert_eq!((s, e), (0, 1));
    upsert(&conn, &files[0], 3, "{\"world\":{\"name\":\"Overworld\"}}", "c", "t");
    assert!(run.finish_chunk(&vec![FileOutcome::Written]));
    assert!(matches!(run.result(), Ok(1)));
    let n: i64 = conn.query_row("SELECT COUNT(*) FROM images", [], |r| r.get(0)).unwrap();
    assert_eq!(n, 1);

    let stored: String = conn.query_row("SELECT thumbnail FROM images", [], |r| r.get(0)).unwrap();
    let thumbs = collect_thumbnails(&vec![ThumbnailLookup {
        file_path: files[0].clone(),
        stable_id: "root".to_string(),
        thumbnail: Some(stored),
    }]);
    assert_eq!(thumbs.len(), 1);
    assert!(thumbs[0].data_url.len() > "data:image/png;base64,".len());

    let found = run_query(&conn);
    let hits = merge_results(&vec![ShardResult {
        stable_id: "root".to_string(),
        rows: Some(found.into_iter().map(|(p, t)| ShardRow { file_path: p, thumbnail: t }).collect()),
    }]);
    assert_eq!(hits.len(), 1);
    assert_eq!(hits[0].file_path, "/photos/shot.png");
    assert_eq!(hits[0].stable_id, "root");
}

fn run_query(conn: &rusqlite::Connection) -> Vec<(String, String)> {
    let q = compile_inputs(&vec![]);
    let mut stmt = conn.prepare(&q.text).unwrap();
    let rows = stmt.query_map([], |r| Ok((r.get(0)?, r.get(1)?))).unwrap();
    rows.map(|r| r.unwrap()).collect()
}
