use ipyprev::lang::Language;
use ipyprev::model::{Cell, NoteBook};
use ipyprev::parse::parse_notebook;
use ipyprev::text::capitalize;

fn code_cell(lines: &[&str]) -> Cell {
    Cell {
        cell_type: "code".to_string(),
        execution_count: None,
        metadata: serde_json::Value::Null,
        outputs: None,
        source: lines.iter().map(|s| s.to_string()).collect(),
    }
}

#[test]
fn language_resolution_exact_match() {
    assert!(matches!(Language::from_str("python"), Language::Python));
    assert!(matches!(Language::from_str("julia"), Language::Julia));
    assert!(matches!(Language::from_str("Python"), Language::Unknown));
    assert!(matches!(Language::from_str(""), Language::Unknown));
}

#[test]
fn language_resolution_unknown_falls_back() {
    // An unrecognized language resolves, it never errors.
    assert!(matches!(Language::from_str("cobol"), Language::Unknown));
}

#[test]
fn language_strings() {
    assert_eq!(Language::Python.to_str(), "python");
    assert_eq!(Language::Julia.to_str(), "julia");
    assert_eq!(Language::Unknown.to_str(), "unknown");
    assert_eq!(Language::Python.to_extension(), "py");
    assert_eq!(Language::Julia.to_extension(), "jl");
    assert_eq!(Language::Unknown.to_extension(), "");
}

#[test]
fn display_labels() {
    assert_eq!(Language::Python.display_label(), "Python");
    assert_eq!(Language::Julia.display_label(), "Julia");
    assert_eq!(Language::Unknown.display_label(), "Unknown");
}

#[test]
fn capitalize_labels() {
    assert_eq!(capitalize("python"), "Python");
    assert_eq!(capitalize("markdown"), "Markdown");
    assert_eq!(capitalize(""), "");
    assert_eq!(capitalize("Raw"), "Raw");
}

#[test]
fn join_numbers_lines_from_zero() {
    let cell = code_cell(&["a\n", "b\n"]);
    assert_eq!(cell.join(), "0| a\n1| b\n");
}

#[test]
fn join_pads_numbers_to_largest_index_width() {
    // Ten lines: the largest index is 9, one digit, so no padding at all.
    let lines: Vec<String> = (0..10).map(|i| format!("l{}\n", i)).collect();
    let refs: Vec<&str> = lines.iter().map(|s| s.as_str()).collect();
    let cell = code_cell(&refs);
    let text = cell.join();
    assert!(text.starts_with("0| l0\n"));
    assert!(text.ends_with("\n9| l9\n"));

    // Eleven lines: the largest index is 10, two digits, so one-digit
    // numbers gain one pad space.
    let lines: Vec<String> = (0..11).map(|i| format!("l{}\n", i)).collect();
    let refs: Vec<&str> = lines.iter().map(|s| s.as_str()).collect();
    let cell = code_cell(&refs);
    let text = cell.join();
    assert!(text.starts_with(" 0| l0\n"));
    assert!(text.contains("\n 9| l9\n"));
    assert!(text.ends_with("\n10| l10\n"));
}

#[test]
fn cell_length_counts_source_lines() {
    let cell = code_cell(&["a\n", "b\n", "c\n"]);
    assert_eq!(cell.length(), 3);
}

#[test]
fn parse_minimal_notebook() {
    let text = r#"{"metadata":{"kernelspec":{"language":"python"}},"nbformat":4,"nbformat_minor":4,"cells":[{"cell_type":"code","execution_count":1,"metadata":{},"outputs":[],"source":["print(1)\n"]}]}"#;
    let nb: NoteBook = parse_notebook(text).expect("minimal notebook parses");
    assert_eq!(nb.nbformat, 4);
    assert_eq!(nb.nbformat_minor, 4);
    assert_eq!(nb.cells.len(), 1);
    assert_eq!(nb.cells[0].cell_type, "code");
    assert_eq!(nb.cells[0].execution_count, Some(1));
    assert_eq!(nb.cells[0].source, vec!["print(1)\n".to_string()]);
    assert!(matches!(nb.get_language(), Language::Python));
}

#[test]
fn parse_tolerates_missing_optional_blocks() {
    // No kernelspec, no language_info: still a valid notebook.
    let text = r#"{"metadata":{},"nbformat":4,"nbformat_minor":2,"cells":[]}"#;
    let nb = parse_notebook(text).expect("empty metadata parses");
    assert!(matches!(nb.get_language(), Language::Unknown));
    assert_eq!(nb.cells.len(), 0);
}

#[test]
fn parse_tolerates_null_optional_fields() {
    let text = r#"{"metadata":{"kernelspec":{"language":null,"name":"x"}},"nbformat":4,"nbformat_minor":0,"cells":[{"cell_type":"raw","execution_count":null,"metadata":{"a":[1,2]},"source":[]}]}"#;
    let nb = parse_notebook(text).expect("null optional fields parse");
    assert!(matches!(nb.get_language(), Language::Unknown));
    assert_eq!(nb.cells[0].execution_count, None);
    assert!(nb.cells[0].outputs.is_none());
}

#[test]
fn parse_keeps_language_info() {
    let text = r#"{"metadata":{"language_info":{"name":"python","version":"3.7.7","codemirror_mode":{"name":"ipython","version":3}}},"nbformat":4,"nbformat_minor":4,"cells":[]}"#;
    let nb = parse_notebook(text).expect("language_info parses");
    let li = nb.metadata.language_info.expect("language_info kept");
    assert_eq!(li.name, "python");
    assert_eq!(li.version, Some("3.7.7".to_string()));
    assert!(li.codemirror_mode.is_some());
}

#[test]
fn parse_rejects_invalid_json() {
    // Truncated document: a ParseError, not a panic.
    assert!(parse_notebook(r#"{"metadata":"#).is_err());
    assert!(parse_notebook("").is_err());
    assert!(parse_notebook("[1,2,3]").is_err());
}

#[test]
fn parse_rejects_missing_required_fields() {
    // No cells array.
    assert!(parse_notebook(r#"{"metadata":{},"nbformat":4,"nbformat_minor":4}"#).is_err());
    // No nbformat.
    assert!(parse_notebook(r#"{"metadata":{},"nbformat_minor":4,"cells":[]}"#).is_err());
    // No metadata.
    assert!(parse_notebook(r#"{"nbformat":4,"nbformat_minor":4,"cells":[]}"#).is_err());
    // Cell without source.
    assert!(parse_notebook(
        r#"{"metadata":{},"nbformat":4,"nbformat_minor":4,"cells":[{"cell_type":"code","metadata":{}}]}"#
    )
    .is_err());
    // Cell without cell_type.
    assert!(parse_notebook(
        r#"{"metadata":{},"nbformat":4,"nbformat_minor":4,"cells":[{"metadata":{},"source":[]}]}"#
    )
    .is_err());
}

#[test]
fn parse_rejects_wrong_shapes() {
    // cells is not an array.
    assert!(parse_notebook(r#"{"metadata":{},"nbformat":4,"nbformat_minor":4,"cells":{}}"#).is_err());
    // A source line is not a string.
    assert!(parse_notebook(
        r#"{"metadata":{},"nbformat":4,"nbformat_minor":4,"cells":[{"cell_type":"code","metadata":{},"source":[1]}]}"#
    )
    .is_err());
    // kernelspec.language is a number.
    assert!(parse_notebook(
        r#"{"metadata":{"kernelspec":{"language":3}},"nbformat":4,"nbformat_minor":4,"cells":[]}"#
    )
    .is_err());
    // nbformat is a string.
    assert!(parse_notebook(r#"{"metadata":{},"nbformat":"4","nbformat_minor":4,"cells":[]}"#).is_err());
}
