use tg_image_hosting::d1::{
    SqlValue, Statement, CREATE_TABLE, D1, INSERT_FILE, SAVE_FILE_PATH, SELECT_FILE,
};
use tg_image_hosting::error::{Error, ErrorKind};
use tg_image_hosting::file::File;

fn record(unique: &str, alias: &str, path: &str) -> File {
    File {
        file_id: alias.to_string(),
        file_unique_id: unique.to_string(),
        thumbnail_file_id: "thumb".to_string(),
        thumbnail_file_unique_id: "thumb-u".to_string(),
        message_id: 11,
        user_id: 22,
        file_name: "name.bin".to_string(),
        file_size: 33,
        mime_type: "application/octet-stream".to_string(),
        add_time: 0,
        update_time: 0,
        file_path: path.to_string(),
    }
}

fn key(s: &str) -> String {
    s.to_string()
}

fn no_such_table() -> Error {
    Error::new(ErrorKind::SchemaMissing, "no such table: files")
}

fn file_not_found() -> Error {
    Error::new(ErrorKind::NotFound, "File not found")
}

#[test]
fn new_store_has_no_table() {
    let d = D1::new();
    assert!(!d.is_created());
    assert_eq!(d.len(), 0);
    assert_eq!(d.get(&key("anything")), Err(no_such_table()));
}

#[test]
fn statements_fail_without_a_table() {
    let mut d = D1::new();
    assert_eq!(d.batch(&vec![record("u", "a", "p")], 1), Err(no_such_table()));
    assert_eq!(d.save_file_path(&key("u"), &key("p")), Err(no_such_table()));
    assert!(!d.is_created());
    assert_eq!(d.len(), 0);
}

#[test]
fn init_creates_the_table_once() {
    let mut d = D1::new();
    assert_eq!(d.init(), Ok(()));
    assert!(d.is_created());
    assert_eq!(d.save(&vec![record("u", "a", "p")], 5), Ok(()));
    assert_eq!(d.init(), Ok(()));
    assert!(d.is_created());
    assert_eq!(d.len(), 1);
    assert_eq!(d.get(&key("u")).unwrap().file_path, "p");
}

#[test]
fn saving_nothing_does_nothing() {
    let mut d = D1::new();
    assert_eq!(d.save(&vec![], 5), Ok(()));
    assert!(!d.is_created());
    let mut e = D1::new();
    e.init().unwrap();
    e.save(&vec![record("u", "a", "p")], 1).unwrap();
    let before = e.clone();
    assert_eq!(e.save(&vec![], 9), Ok(()));
    assert_eq!(e, before);
}

#[test]
fn save_heals_a_missing_table() {
    let mut d = D1::new();
    assert_eq!(d.save(&vec![record("AQADu1", "AgAD1", "photos/file_1.jpg")], 1000), Ok(()));
    assert!(d.is_created());
    assert_eq!(d.len(), 1);
    let row = d.get(&key("AQADu1")).unwrap();
    assert_eq!(row, File { add_time: 1000, update_time: 1000, ..record("AQADu1", "AgAD1", "photos/file_1.jpg") });
}

#[test]
fn save_heals_a_missing_table_for_a_whole_batch() {
    let mut d = D1::new();
    let batch = vec![record("u1", "a1", "f/1"), record("u2", "a2", ""), record("u3", "", "f/3")];
    assert_eq!(d.save(&batch, 7), Ok(()));
    assert_eq!(d.len(), 3);
    for f in &batch {
        assert_eq!(d.get(&f.file_unique_id).unwrap().file_unique_id, f.file_unique_id);
    }
}

#[test]
fn upsert_twice_leaves_one_row_and_the_second_write_wins() {
    let mut d = D1::new();
    d.save(&vec![record("u", "alias-1", "photos/old.jpg")], 100).unwrap();
    let second = File {
        file_name: "renamed.bin".to_string(),
        file_size: 44,
        mime_type: "image/jpeg".to_string(),
        message_id: 12,
        user_id: 23,
        thumbnail_file_id: "thumb-2".to_string(),
        thumbnail_file_unique_id: "thumb-u2".to_string(),
        ..record("u", "alias-2", "photos/new.jpg")
    };
    assert_eq!(d.save(&vec![second.clone()], 200), Ok(()));
    assert_eq!(d.len(), 1);
    let row = d.get(&key("u")).unwrap();
    assert_eq!(row, File { add_time: 100, update_time: 200, ..second });
    assert_eq!(d.get(&key("alias-2")).unwrap(), row);
    assert_eq!(d.get(&key("alias-1")), Err(file_not_found()));
}

#[test]
fn upsert_without_a_path_keeps_the_path() {
    let mut d = D1::new();
    d.save(&vec![record("u", "alias-1", "photos/old.jpg")], 100).unwrap();
    d.save(&vec![record("u", "alias-2", "")], 200).unwrap();
    let row = d.get(&key("u")).unwrap();
    assert_eq!(row.file_path, "photos/old.jpg");
    assert_eq!(row.file_id, "alias-2");
    assert_eq!(row.add_time, 100);
    assert_eq!(row.update_time, 200);
    assert_eq!(d.len(), 1);
}

#[test]
fn upsert_of_the_same_record_is_idempotent() {
    let mut d = D1::new();
    d.save(&vec![record("u", "a", "p")], 100).unwrap();
    let once = d.clone();
    d.save(&vec![record("u", "a", "p")], 100).unwrap();
    assert_eq!(d, once);
}

#[test]
fn a_batch_may_write_the_same_content_twice() {
    let mut d = D1::new();
    d.save(&vec![record("u", "a1", "f/1"), record("u", "a2", "")], 50).unwrap();
    assert_eq!(d.len(), 1);
    let row = d.get(&key("u")).unwrap();
    assert_eq!(row.file_id, "a2");
    assert_eq!(row.file_path, "f/1");
}

#[test]
fn lookups_of_two_records_are_disjoint() {
    let mut d = D1::new();
    let a = record("unique-a", "alias-a", "photos/a.jpg");
    let b = record("unique-b", "alias-b", "videos/b.mp4");
    d.save(&vec![a.clone(), b.clone()], 9).unwrap();
    let row_a = File { add_time: 9, update_time: 9, ..a };
    let row_b = File { add_time: 9, update_time: 9, ..b };
    assert_eq!(d.get(&key("unique-a")), Ok(row_a.clone()));
    assert_eq!(d.get(&key("alias-a")), Ok(row_a));
    assert_eq!(d.get(&key("unique-b")), Ok(row_b.clone()));
    assert_eq!(d.get(&key("alias-b")), Ok(row_b));
    assert_eq!(d.get(&key("unique-c")), Err(file_not_found()));
}

#[test]
fn lookup_prefers_the_content_identifier() {
    let mut d = D1::new();
    d.save(&vec![record("first", "second", "f/1"), record("second", "other", "f/2")], 1).unwrap();
    assert_eq!(d.get(&key("second")).unwrap().file_unique_id, "second");
    assert_eq!(d.get(&key("first")).unwrap().file_unique_id, "first");
    assert_eq!(d.get(&key("other")).unwrap().file_unique_id, "second");
}

#[test]
fn lookup_by_the_empty_key_finds_no_alias() {
    let mut d = D1::new();
    d.save(&vec![record("u1", "", "f/1"), record("u2", "", "f/2")], 1).unwrap();
    assert_eq!(d.len(), 2);
    assert_eq!(d.get(&key("")), Err(file_not_found()));
}

#[test]
fn an_alias_of_other_content_fails_the_whole_batch() {
    let mut d = D1::new();
    d.save(&vec![record("u1", "shared", "f/1")], 1).unwrap();
    let before = d.clone();
    let r = d.save(&vec![record("u3", "fine", "f/3"), record("u2", "shared", "f/2")], 2);
    assert_eq!(r, Err(Error::new(ErrorKind::Store, "UNIQUE constraint failed: files.file_id")));
    assert_eq!(d, before);
    assert_eq!(d.get(&key("u3")), Err(file_not_found()));
}

#[test]
fn an_alias_clash_inside_a_batch_leaves_a_created_and_empty_table() {
    let mut d = D1::new();
    let r = d.save(&vec![record("u1", "shared", "f/1"), record("u2", "shared", "f/2")], 2);
    assert_eq!(r, Err(Error::new(ErrorKind::Store, "UNIQUE constraint failed: files.file_id")));
    assert!(d.is_created());
    assert_eq!(d.len(), 0);
}

#[test]
fn save_file_path_changes_one_field_of_one_row() {
    let mut d = D1::new();
    d.save(&vec![record("u1", "a1", ""), record("u2", "a2", "keep")], 10).unwrap();
    assert_eq!(d.save_file_path(&key("u1"), &key("photos/fresh.jpg")), Ok(()));
    assert_eq!(
        d.get(&key("u1")).unwrap(),
        File { add_time: 10, update_time: 10, ..record("u1", "a1", "photos/fresh.jpg") }
    );
    assert_eq!(d.get(&key("u2")).unwrap().file_path, "keep");
    assert_eq!(d.len(), 2);
}

#[test]
fn save_file_path_of_unknown_content_is_no_failure() {
    let mut d = D1::new();
    d.save(&vec![record("u1", "a1", "f/1")], 10).unwrap();
    let before = d.clone();
    assert_eq!(d.save_file_path(&key("nobody"), &key("x")), Ok(()));
    assert_eq!(d, before);
}

#[test]
fn save_file_path_goes_by_content_identifier_not_alias() {
    let mut d = D1::new();
    d.save(&vec![record("u1", "a1", "f/1")], 10).unwrap();
    d.save_file_path(&key("a1"), &key("x")).unwrap();
    assert_eq!(d.get(&key("u1")).unwrap().file_path, "f/1");
}

#[test]
fn found_row_or_not_found() {
    assert_eq!(D1::found(Some(record("u", "a", "p"))), Ok(record("u", "a", "p")));
    assert_eq!(D1::found(None), Err(file_not_found()));
}

#[test]
fn failure_names_a_missing_table() {
    let e = D1::failure(
        Some("no such table: files: SQLITE_ERROR".to_string()),
        "D1_ERROR: no such table: files: SQLITE_ERROR".to_string(),
    );
    assert_eq!(
        e,
        Error { kind: ErrorKind::SchemaMissing, message: "D1_ERROR: no such table: files: SQLITE_ERROR".to_string() }
    );
}

#[test]
fn failure_of_any_other_cause_is_a_store_failure() {
    let e = D1::failure(Some("UNIQUE constraint failed".to_string()), "D1_ERROR: UNIQUE".to_string());
    assert_eq!(e, Error { kind: ErrorKind::Store, message: "D1_ERROR: UNIQUE".to_string() });
    let e = D1::failure(None, "no such table".to_string());
    assert_eq!(e, Error { kind: ErrorKind::Store, message: "no such table".to_string() });
}

#[test]
fn init_statement_creates_if_absent() {
    let s = D1::init_statement();
    assert_eq!(s.sql, CREATE_TABLE);
    assert!(s.sql.starts_with("CREATE TABLE IF NOT EXISTS"));
    assert!(s.params.is_empty());
}

#[test]
fn save_statement_binds_the_fields_in_order() {
    let f = File { message_id: -3, user_id: u64::MAX, file_size: 5, ..record("u", "a", "p") };
    let s = D1::save_statement(&f);
    assert_eq!(s.sql, INSERT_FILE);
    assert_eq!(
        s.params,
        vec![
            SqlValue::Text("a".to_string()),
            SqlValue::Text("u".to_string()),
            SqlValue::Text("thumb".to_string()),
            SqlValue::Text("thumb-u".to_string()),
            SqlValue::Integer(-3),
            SqlValue::Unsigned(u64::MAX),
            SqlValue::Text("name.bin".to_string()),
            SqlValue::Unsigned(5),
            SqlValue::Text("application/octet-stream".to_string()),
            SqlValue::Text("p".to_string()),
        ]
    );
    assert_eq!(s.sql.matches('?').count(), s.params.len());
}

#[test]
fn save_statement_binds_nothing_for_an_empty_alias() {
    let s = D1::save_statement(&record("u", "", "p"));
    assert_eq!(s.params[0], SqlValue::Null);
    assert_eq!(s.params[1], SqlValue::Text("u".to_string()));
}

#[test]
fn save_statements_follow_the_batch() {
    let batch = vec![record("u1", "a1", "f/1"), record("u2", "a2", "f/2")];
    let statements = D1::save_statements(&batch);
    assert_eq!(statements, vec![D1::save_statement(&batch[0]), D1::save_statement(&batch[1])]);
    assert_eq!(D1::save_statements(&vec![]), Vec::<Statement>::new());
}

#[test]
fn save_file_path_statement_binds_path_then_identifier() {
    let s = D1::save_file_path_statement(&key("u"), &key("photos/x.jpg"));
    assert_eq!(s.sql, SAVE_FILE_PATH);
    assert_eq!(s.params, vec![SqlValue::Text("photos/x.jpg".to_string()), SqlValue::Text("u".to_string())]);
    assert_eq!(s.sql.matches('?').count(), s.params.len());
}

#[test]
fn get_statement_binds_the_key_to_every_placeholder() {
    let s = D1::get_statement(&key("k"));
    assert_eq!(s.sql, SELECT_FILE);
    assert_eq!(s.params, vec![SqlValue::Text("k".to_string()); 3]);
    assert_eq!(s.sql.matches('?').count(), s.params.len());
}
