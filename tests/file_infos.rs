use naming_table::file_info::{
    decode_row, encode_row, DecodedFile, EncodingError, FileInfo, FileInfoItem, FileRow, Id,
    NameType, Pos, RelativePath,
};
use naming_table::path_codec::{ModeKind, PrefixKind};
use naming_table::store::{
    batch_report, encode_batch, next_step, should_retry, BatchPolicy, BatchStep, RowOutcome,
    WriteFailure, CREATE_FILE_INFO_TABLE, INSERT_FILE_INFO, SELECT_FILE_INFO_BY_PATH,
};
use rusqlite::Connection;

fn class_id(path: &RelativePath, name: &str) -> Id {
    Id(Pos::File(NameType::Class, path.clone()), name.to_string())
}

fn item(suffix: &str, classes: &[&str]) -> FileInfoItem {
    let path = RelativePath::make(PrefixKind::Root, suffix.to_string());
    FileInfoItem {
        path: path.clone(),
        file_info: FileInfo {
            hash: Some("d41d8cd9".to_string()),
            file_mode: Some(ModeKind::Mstrict),
            classes: classes.iter().map(|c| class_id(&path, c)).collect(),
            consts: vec![],
            funs: vec![],
            record_defs: vec![],
            typedefs: vec![],
        },
    }
}

fn open() -> Connection {
    let conn = Connection::open_in_memory().unwrap();
    conn.execute(CREATE_FILE_INFO_TABLE, ()).unwrap();
    conn
}

fn write(conn: &Connection, row: &FileRow) -> Option<WriteFailure> {
    let result = conn.execute(
        INSERT_FILE_INFO,
        (
            row.path_prefix_type,
            &row.path_suffix,
            row.type_checker_mode,
            &row.decl_hash,
            &row.classes,
            &row.consts,
            &row.funs,
            &row.recs,
            &row.typedefs,
        ),
    );
    match result {
        Ok(_) => None,
        Err(_) => Some(WriteFailure::Engine),
    }
}

fn insert(conn: &Connection, items: &Vec<FileInfoItem>, policy: BatchPolicy) -> naming_table::store::InsertReport {
    let encoded = encode_batch(items);
    let mut written: Vec<Option<WriteFailure>> = Vec::new();
    conn.execute_batch("BEGIN").unwrap();
    loop {
        match next_step(policy, &encoded, &written) {
            BatchStep::Write(i) => {
                let row = encoded[i].as_ref().unwrap();
                written.push(write(conn, row));
            }
            BatchStep::Skip(_) => written.push(None),
            BatchStep::Finish => break,
        }
    }
    written.resize(encoded.len(), None);
    let report = batch_report(policy, &encoded, &written);
    if report.committed {
        conn.execute_batch("COMMIT").unwrap();
    } else {
        conn.execute_batch("ROLLBACK").unwrap();
    }
    report
}

fn lookup(conn: &Connection, prefix: i64, suffix: &str) -> Vec<(i64, DecodedFile)> {
    let mut stmt = conn.prepare(SELECT_FILE_INFO_BY_PATH).unwrap();
    let rows = stmt
        .query_map((prefix, suffix), |r| {
            Ok((
                r.get::<_, i64>(0)?,
                FileRow {
                    path_prefix_type: r.get(1)?,
                    path_suffix: r.get(2)?,
                    type_checker_mode: r.get(3)?,
                    decl_hash: r.get(4)?,
                    classes: r.get(5)?,
                    consts: r.get(6)?,
                    funs: r.get(7)?,
                    recs: r.get(8)?,
                    typedefs: r.get(9)?,
                },
            ))
        })
        .unwrap();
    rows.map(|r| {
        let (id, row) = r.unwrap();
        (id, decode_row(&row).unwrap())
    })
    .collect()
}

fn count(conn: &Connection) -> i64 {
    conn.query_row("SELECT COUNT(*) FROM NAMING_FILE_INFO", (), |r| r.get(0)).unwrap()
}

#[test]
fn test_add_file_info() {
    let conn = open();
    let path = RelativePath::make(PrefixKind::Root, "foo.php".to_string());
    let file_infos = vec![FileInfoItem {
        path: path.clone(),
        file_info: FileInfo {
            hash: None,
            file_mode: Some(ModeKind::Mstrict),
            classes: vec![class_id(&path, "Foo")],
            consts: vec![],
            funs: vec![],
            record_defs: vec![],
            typedefs: vec![],
        },
    }];
    let report = insert(&conn, &file_infos, BatchPolicy::PartialProgress);
    assert!(report.committed);
    assert_eq!(report.outcomes, vec![RowOutcome::Inserted]);
}

#[test]
fn encode_row_of_one_class() {
    let row = encode_row(&item("foo.php", &["Foo"])).unwrap();
    assert_eq!(row.path_prefix_type, 0);
    assert_eq!(row.path_suffix, "foo.php");
    assert_eq!(row.type_checker_mode, Some(2));
    assert_eq!(row.decl_hash, Some("d41d8cd9".to_string()));
    assert_eq!(row.classes, "Foo|");
    assert_eq!(row.consts, "");
    assert_eq!(row.funs, "");
    assert_eq!(row.recs, "");
    assert_eq!(row.typedefs, "");
}

#[test]
fn row_round_trip_keeps_names_and_hash() {
    let mut it = item("dir/a.php", &["A", "B|C", "D\\E"]);
    it.file_info.funs = vec![class_id(&it.path, "f")];
    it.file_info.file_mode = None;
    let d = decode_row(&encode_row(&it).unwrap()).unwrap();
    assert_eq!(d.prefix, PrefixKind::Root);
    assert_eq!(d.suffix, "dir/a.php");
    assert_eq!(d.file_mode, None);
    assert_eq!(d.decl_hash, Some("d41d8cd9".to_string()));
    assert_eq!(d.classes, vec!["A", "B|C", "D\\E"]);
    assert_eq!(d.funs, vec!["f"]);
    assert!(d.consts.is_empty() && d.record_defs.is_empty() && d.typedefs.is_empty());
}

#[test]
fn nul_in_values_cannot_be_stored() {
    let it = item("a\0.php", &["Foo"]);
    assert!(matches!(encode_row(&it), Err(EncodingError::PathSuffix)));
    let mut it = item("a.php", &["Foo"]);
    it.file_info.hash = Some("x\0".to_string());
    assert!(matches!(encode_row(&it), Err(EncodingError::DeclHash)));
    let it = item("a.php", &["Fo\0o"]);
    assert!(matches!(encode_row(&it), Err(EncodingError::SymbolName(NameType::Class))));
    let mut it = item("a.php", &[]);
    it.file_info.typedefs = vec![class_id(&it.path, "\0")];
    assert!(matches!(encode_row(&it), Err(EncodingError::SymbolName(NameType::Typedef))));
}

#[test]
fn schema_init_is_idempotent() {
    let conn = open();
    conn.execute(CREATE_FILE_INFO_TABLE, ()).unwrap();
    let tables: i64 = conn
        .query_row(
            "SELECT COUNT(*) FROM sqlite_master WHERE type = 'table' AND name = 'NAMING_FILE_INFO'",
            (),
            |r| r.get(0),
        )
        .unwrap();
    assert_eq!(tables, 1);
}

#[test]
fn scenario_one_class_file() {
    let conn = open();
    insert(&conn, &vec![item("foo.php", &["Foo"])], BatchPolicy::PartialProgress);
    assert_eq!(count(&conn), 1);
    let found = lookup(&conn, 0, "foo.php");
    assert_eq!(found.len(), 1);
    let d = &found[0].1;
    assert_eq!(d.classes, vec!["Foo"]);
    assert!(d.consts.is_empty());
    assert!(d.funs.is_empty());
    assert!(d.record_defs.is_empty());
    assert!(d.typedefs.is_empty());
    assert_eq!(d.file_mode, Some(ModeKind::Mstrict));
}

#[test]
fn scenario_two_files_in_one_batch() {
    let conn = open();
    let report = insert(
        &conn,
        &vec![item("foo.php", &["Foo"]), item("bar.php", &["Bar"])],
        BatchPolicy::AllOrNothing,
    );
    assert!(report.committed);
    assert_eq!(report.outcomes, vec![RowOutcome::Inserted, RowOutcome::Inserted]);
    let foo = lookup(&conn, 0, "foo.php");
    let bar = lookup(&conn, 0, "bar.php");
    assert_eq!(foo[0].1.classes, vec!["Foo"]);
    assert_eq!(bar[0].1.classes, vec!["Bar"]);
    assert!(foo[0].0 < bar[0].0);
}

#[test]
fn scenario_reinitialize_keeps_rows() {
    let conn = open();
    insert(&conn, &vec![item("foo.php", &["Foo"])], BatchPolicy::PartialProgress);
    conn.execute(CREATE_FILE_INFO_TABLE, ()).unwrap();
    let found = lookup(&conn, 0, "foo.php");
    assert_eq!(found.len(), 1);
    assert_eq!(found[0].1.classes, vec!["Foo"]);
}

#[test]
fn stable_key_lookup() {
    let conn = open();
    let it = item("foo.php", &["Foo", "Baz"]);
    insert(&conn, &vec![it], BatchPolicy::PartialProgress);
    let found = lookup(&conn, 0, "foo.php");
    assert_eq!(found[0].1.classes, vec!["Foo", "Baz"]);
    assert_eq!(found[0].1.decl_hash, Some("d41d8cd9".to_string()));
    assert!(lookup(&conn, 1, "foo.php").is_empty());
}

#[test]
fn malformed_file_with_partial_progress() {
    let conn = open();
    let items = vec![item("a.php", &["A"]), item("b.php", &["B\0"]), item("c.php", &["C"])];
    let report = insert(&conn, &items, BatchPolicy::PartialProgress);
    assert!(report.committed);
    assert_eq!(
        report.outcomes,
        vec![
            RowOutcome::Inserted,
            RowOutcome::EncodingFailed(EncodingError::SymbolName(NameType::Class)),
            RowOutcome::Inserted
        ]
    );
    assert_eq!(count(&conn), 2);
}

#[test]
fn malformed_file_with_all_or_nothing() {
    let conn = open();
    let items = vec![item("a.php", &["A"]), item("b.php", &["B\0"]), item("c.php", &["C"])];
    let report = insert(&conn, &items, BatchPolicy::AllOrNothing);
    assert!(!report.committed);
    assert_eq!(
        report.outcomes,
        vec![
            RowOutcome::RolledBack,
            RowOutcome::EncodingFailed(EncodingError::SymbolName(NameType::Class)),
            RowOutcome::RolledBack
        ]
    );
    assert_eq!(count(&conn), 0);
}

#[test]
fn write_failure_rolls_back_all_or_nothing() {
    let items = vec![item("a.php", &["A"]), item("b.php", &["B"])];
    let encoded = encode_batch(&items);
    let written = vec![None, Some(WriteFailure::Engine)];
    let report = batch_report(BatchPolicy::AllOrNothing, &encoded, &written);
    assert!(!report.committed);
    assert_eq!(
        report.outcomes,
        vec![RowOutcome::RolledBack, RowOutcome::WriteFailed(WriteFailure::Engine)]
    );
    assert_eq!(next_step(BatchPolicy::AllOrNothing, &encoded, &vec![Some(WriteFailure::Busy)]), BatchStep::Finish);
    assert_eq!(next_step(BatchPolicy::PartialProgress, &encoded, &vec![Some(WriteFailure::Busy)]), BatchStep::Write(1));
}

#[test]
fn busy_writes_are_retried_a_few_times() {
    assert!(should_retry(WriteFailure::Busy, 0));
    assert!(should_retry(WriteFailure::Busy, 2));
    assert!(!should_retry(WriteFailure::Busy, 3));
    assert!(!should_retry(WriteFailure::Engine, 0));
}
