use bdk_cli::output::{
    format_table, table_layout, CellValue, Entry, ListResult, OutputFormatType, Row, TableValue,
};
use serde_json::Value;

fn text(key: &str, value: &str) -> Entry {
    Entry { key: key.to_string(), value: CellValue::Text(value.to_string()) }
}

fn json(key: &str, value: Value) -> Entry {
    Entry { key: key.to_string(), value: CellValue::Json(value) }
}

#[test]
fn list_result_counts_items() {
    let result = ListResult::new(vec!["a", "b", "c"]);
    assert_eq!(result.count, 3);
    assert_eq!(result.items, vec!["a", "b", "c"]);
    let empty: ListResult<u32> = ListResult::new(Vec::new());
    assert_eq!(empty.count, 0);
}

#[test]
fn columns_in_order_of_first_occurrence() {
    let value = TableValue::List(vec![
        Row::Record(vec![text("b", "1"), text("a", "2")]),
        Row::Record(vec![text("c", "3"), text("a", "4")]),
    ]);
    let layout = table_layout(&value);
    assert_eq!(layout.columns, vec!["b", "a", "c"]);
    assert_eq!(layout.rows, vec![vec!["1", "2", ""], vec!["", "4", "3"]]);
}

#[test]
fn cells_show_json_for_non_strings() {
    let value = TableValue::List(vec![Row::Record(vec![
        json("n", Value::from(42)),
        json("flag", Value::Bool(true)),
        json("none", Value::Null),
        json("list", Value::Array(vec![Value::from(1), Value::from("x")])),
        text("s", "plain"),
    ])]);
    let layout = table_layout(&value);
    assert_eq!(layout.columns, vec!["n", "flag", "none", "list", "s"]);
    assert_eq!(layout.rows, vec![vec!["42", "true", "null", "[1,\"x\"]", "plain"]]);
}

#[test]
fn rows_that_are_no_records_have_empty_cells() {
    let value = TableValue::List(vec![Row::Other, Row::Record(vec![text("k", "v")]), Row::Other]);
    let layout = table_layout(&value);
    assert_eq!(layout.columns, vec!["k"]);
    assert_eq!(layout.rows, vec![vec![""], vec!["v"], vec![""]]);
}

#[test]
fn single_record_is_one_row() {
    let value = TableValue::Single(Row::Record(vec![text("name", "alice"), json("age", Value::from(7))]));
    let layout = table_layout(&value);
    assert_eq!(layout.columns, vec!["name", "age"]);
    assert_eq!(layout.rows, vec![vec!["alice", "7"]]);
}

#[test]
fn values_without_records_have_no_table() {
    assert!(format_table(&TableValue::Single(Row::Other)).is_none());
    assert!(format_table(&TableValue::List(vec![])).is_none());
    assert!(format_table(&TableValue::List(vec![Row::Other, Row::Record(vec![])])).is_none());
}

#[test]
fn rendered_table_holds_header_and_cells() {
    let value = TableValue::List(vec![
        Row::Record(vec![text("txid", "abc"), json("amount", Value::from(1500))]),
        Row::Record(vec![text("txid", "def")]),
    ]);
    let rendered = format_table(&value).unwrap().unwrap();
    assert!(rendered.contains("txid"));
    assert!(rendered.contains("amount"));
    assert!(rendered.contains("abc"));
    assert!(rendered.contains("def"));
    assert!(rendered.contains("1500"));
}

#[test]
fn output_formats_are_distinct() {
    assert_ne!(OutputFormatType::Json, OutputFormatType::Table);
    assert_ne!(OutputFormatType::Toml, OutputFormatType::Json);
}

#[test]
fn rendered_table_is_cells_among_borders() {
    let value = TableValue::List(vec![
        Row::Record(vec![text("alpha", "x")]),
        Row::Record(vec![text("beta", "y")]),
    ]);
    let rendered = format_table(&value).unwrap().unwrap();
    assert!(rendered.find("alpha").unwrap() < rendered.find("beta").unwrap());
    assert!(rendered.find("x").unwrap() < rendered.find("y").unwrap());

    let repeated = TableValue::List(vec![
        Row::Record(vec![text("kk", "p1q")]),
        Row::Record(vec![text("kk", "r2s")]),
    ]);
    let rendered = format_table(&repeated).unwrap().unwrap();
    assert_eq!(rendered.matches("kk").count(), 1);
    assert!(rendered.find("p1q").unwrap() < rendered.find("r2s").unwrap());

    let quoted = TableValue::List(vec![Row::Record(vec![text("name", "alice"), json("n", Value::from(7))])]);
    let rendered = format_table(&quoted).unwrap().unwrap();
    assert!(rendered.contains("alice") && !rendered.contains("\"alice\""));
    let pieces = ["name", "n", "alice", "7"];
    let mut rest = rendered.as_str();
    for piece in pieces {
        let at = rest.find(piece).unwrap();
        let filler = &rest[..at];
        assert!(filler.chars().all(|c| "+-| \n\u{1b}[01m".contains(c)), "{:?}", filler);
        rest = &rest[at + piece.len()..];
    }
    assert!(rest.chars().all(|c| "+-| \n\u{1b}[01m".contains(c)));
}

#[test]
fn tables_with_line_breaks_keep_every_row() {
    let value = TableValue::List(vec![
        Row::Record(vec![text("note", "first\nline")]),
        Row::Record(vec![text("note", "second")]),
        Row::Record(vec![text("note", "third")]),
    ]);
    let rendered = format_table(&value).unwrap().unwrap();
    for piece in ["note", "first", "line", "second", "third"] {
        assert!(rendered.contains(piece), "{piece}");
    }
    assert!(rendered.find("first").unwrap() < rendered.find("third").unwrap());
}
