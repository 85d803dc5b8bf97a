use wrappers::row::Row;
use wrappers::value::Cell;

#[test]
fn new_row_is_empty_and_parallel() {
    let r = Row::new();
    assert_eq!(r.cols.len(), 0);
    assert_eq!(r.cells.len(), 0);
}

#[test]
fn push_keeps_lists_parallel() {
    let mut r = Row::new();
    r.push("id", Some(Cell::I64(1)));
    assert_eq!(r.cols.len(), r.cells.len());
    r.push("name", Some(Cell::Text("a".to_string())));
    assert_eq!(r.cols.len(), r.cells.len());
    r.push("note", None);
    assert_eq!(r.cols.len(), r.cells.len());
    assert_eq!(r.cols, vec!["id".to_string(), "name".to_string(), "note".to_string()]);
    assert_eq!(
        r.cells,
        vec![Some(Cell::I64(1)), Some(Cell::Text("a".to_string())), None]
    );
}

#[test]
fn iter_pairs_in_insertion_order() {
    let mut r = Row::new();
    r.push("id", Some(Cell::I32(7)));
    r.push("name", None);
    let pairs = r.iter();
    assert_eq!(pairs.len(), 2);
    assert_eq!(pairs[0].0, "id".to_string());
    assert_eq!(pairs[0].1, Some(Cell::I32(7)));
    assert_eq!(pairs[1].0, "name".to_string());
    assert_eq!(pairs[1].1, None);
}

#[test]
fn retain_applies_one_mask_to_both_lists() {
    let mut r = Row::new();
    r.push("id", Some(Cell::I64(1)));
    r.push("name", Some(Cell::Text("a".to_string())));
    r.push("age", Some(Cell::I64(30)));
    r.push("note", None);
    r.retain(|_c, v| v.is_some());
    assert_eq!(r.cols.len(), r.cells.len());
    assert_eq!(
        r.cols,
        vec!["id".to_string(), "name".to_string(), "age".to_string()]
    );
    assert_eq!(
        r.cells,
        vec![
            Some(Cell::I64(1)),
            Some(Cell::Text("a".to_string())),
            Some(Cell::I64(30))
        ]
    );
}

#[test]
fn retain_by_column_name_keeps_relative_order() {
    let mut r = Row::new();
    r.push("a", Some(Cell::I64(1)));
    r.push("b", Some(Cell::I64(2)));
    r.push("a", Some(Cell::I64(3)));
    r.retain(|c, _v| c == "a");
    assert_eq!(r.cols, vec!["a".to_string(), "a".to_string()]);
    assert_eq!(r.cells, vec![Some(Cell::I64(1)), Some(Cell::I64(3))]);
}

#[test]
fn retain_with_always_false_empties_the_row() {
    let mut r = Row::new();
    r.push("id", Some(Cell::I64(1)));
    r.retain(|_c, _v| false);
    assert_eq!(r.cols.len(), 0);
    assert_eq!(r.cells.len(), 0);
}

#[test]
fn clone_is_deep() {
    let mut r = Row::new();
    r.push("id", Some(Cell::Text("x".to_string())));
    let c = r.clone();
    assert_eq!(r, c);
}
