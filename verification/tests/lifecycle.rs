use std::collections::HashMap;
use wrappers::fdw::ForeignDataWrapper;
use wrappers::mem::{MemFdw, ModifyOp};
use wrappers::query::Sort;
use wrappers::row::Row;
use wrappers::value::Cell;

fn sample_row(id: Option<i64>, name: &str) -> Row {
    let mut r = Row::new();
    r.push("id", id.map(Cell::I64));
    r.push("name", Some(Cell::Text(name.to_string())));
    r
}

fn id_of(r: &Row) -> Option<i64> {
    match &r.cells[0] {
        Some(Cell::I64(v)) => Some(*v),
        _ => None,
    }
}

#[test]
fn scan_end_to_end_returns_each_declared_row_once() {
    let options: HashMap<String, String> = HashMap::new();
    let mut fdw = MemFdw::new(&options);
    fdw.load(sample_row(Some(1), "a"));
    fdw.load(sample_row(Some(2), "b"));
    fdw.load(sample_row(Some(3), "c"));
    let columns = vec!["id".to_string(), "name".to_string()];
    fdw.begin_scan(&[], &columns, &[], &None, &options);
    let r1 = fdw.iter_scan().expect("first row");
    let r2 = fdw.iter_scan().expect("second row");
    let r3 = fdw.iter_scan().expect("third row");
    assert_eq!(fdw.iter_scan(), None);
    assert_eq!(r1, sample_row(Some(1), "a"));
    assert_eq!(r2, sample_row(Some(2), "b"));
    assert_eq!(r3, sample_row(Some(3), "c"));
    fdw.end_scan();
}

#[test]
fn iter_scan_terminal_state_is_idempotent() {
    let options: HashMap<String, String> = HashMap::new();
    let mut fdw = MemFdw::new(&options);
    fdw.load(sample_row(Some(1), "a"));
    fdw.begin_scan(&[], &[], &[], &None, &options);
    assert!(fdw.iter_scan().is_some());
    assert_eq!(fdw.iter_scan(), None);
    assert_eq!(fdw.iter_scan(), None);
    assert_eq!(fdw.iter_scan(), None);
    fdw.end_scan();
}

#[test]
fn re_scan_rewinds_to_the_beginning() {
    let options: HashMap<String, String> = HashMap::new();
    let mut fdw = MemFdw::new(&options);
    fdw.load(sample_row(Some(1), "a"));
    fdw.load(sample_row(Some(2), "b"));
    fdw.begin_scan(&[], &[], &[], &None, &options);
    assert_eq!(id_of(&fdw.iter_scan().unwrap()), Some(1));
    assert_eq!(id_of(&fdw.iter_scan().unwrap()), Some(2));
    assert_eq!(fdw.iter_scan(), None);
    fdw.re_scan();
    assert_eq!(id_of(&fdw.iter_scan().unwrap()), Some(1));
    assert_eq!(id_of(&fdw.iter_scan().unwrap()), Some(2));
    assert_eq!(fdw.iter_scan(), None);
    fdw.end_scan();
}

#[test]
fn scan_honors_reversed_sort_with_nulls_first() {
    let options: HashMap<String, String> = HashMap::new();
    let mut fdw = MemFdw::new(&options);
    fdw.load(sample_row(Some(2), "b"));
    fdw.load(sample_row(None, "n"));
    fdw.load(sample_row(Some(3), "c"));
    fdw.load(sample_row(Some(1), "a"));
    let sorts = vec![Sort {
        field: "id".to_string(),
        field_no: 1,
        reversed: true,
        nulls_first: true,
        collate: None,
    }];
    fdw.begin_scan(&[], &[], &sorts, &None, &options);
    let ids: Vec<Option<i64>> = (0..4).map(|_| id_of(&fdw.iter_scan().unwrap())).collect();
    assert_eq!(fdw.iter_scan(), None);
    assert_eq!(ids, vec![None, Some(3), Some(2), Some(1)]);
    fdw.end_scan();
}

#[test]
fn scan_honors_ascending_sort_with_nulls_last() {
    let options: HashMap<String, String> = HashMap::new();
    let mut fdw = MemFdw::new(&options);
    fdw.load(sample_row(Some(2), "b"));
    fdw.load(sample_row(None, "n"));
    fdw.load(sample_row(Some(1), "a"));
    let sorts = vec![Sort {
        field: "id".to_string(),
        field_no: 1,
        reversed: false,
        nulls_first: false,
        collate: None,
    }];
    fdw.begin_scan(&[], &[], &sorts, &None, &options);
    let ids: Vec<Option<i64>> = (0..3).map(|_| id_of(&fdw.iter_scan().unwrap())).collect();
    assert_eq!(fdw.iter_scan(), None);
    assert_eq!(ids, vec![Some(1), Some(2), None]);
    fdw.end_scan();
}

#[test]
fn modify_session_records_operations_in_call_order() {
    let options: HashMap<String, String> = HashMap::new();
    let mut table_options: HashMap<String, String> = HashMap::new();
    table_options.insert("rowid_column".to_string(), "id".to_string());
    let mut fdw = MemFdw::new(&options);
    fdw.begin_modify(&table_options);
    fdw.insert(&sample_row(Some(10), "a"));
    fdw.update(&Cell::I64(10), &sample_row(Some(10), "b"));
    fdw.delete(&Cell::I64(10));
    fdw.end_modify();
    let ops = fdw.recorded_ops();
    assert_eq!(
        *ops,
        vec![
            ModifyOp::Insert(sample_row(Some(10), "a")),
            ModifyOp::Update(Cell::I64(10), sample_row(Some(10), "b")),
            ModifyOp::Delete(Cell::I64(10)),
        ]
    );
}

#[test]
fn rel_size_estimate_defaults_to_zero() {
    let options: HashMap<String, String> = HashMap::new();
    let mut fdw = MemFdw::new(&options);
    let (rows, width) = fdw.get_rel_size(&[], &[], &[], &None, &options);
    assert_eq!(rows, 0);
    assert_eq!(width, 0);
}

#[test]
fn validator_accepts_anything_by_default() {
    MemFdw::validator(vec![Some("foo 'bar'".to_string()), None], Some(wrappers::fdw::FOREIGN_SERVER_RELATION_ID));
    MemFdw::validator(vec![], None);
}
