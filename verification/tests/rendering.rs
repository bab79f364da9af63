use ipyprev::model::{Cell, MetaData, KernelSpec, NoteBook, Output};
use ipyprev::lang::Language;
use ipyprev::parse::parse_notebook;
use ipyprev::render::RenderMode;

fn notebook_with(language: Option<&str>, cells: Vec<Cell>) -> NoteBook {
    NoteBook {
        metadata: MetaData {
            kernelspec: language.map(|l| KernelSpec {
                display_name: None,
                language: Some(l.to_string()),
                name: None,
            }),
            language_info: None,
        },
        nbformat: 4,
        nbformat_minor: 4,
        cells,
    }
}

fn cell(cell_type: &str, lines: &[&str], outputs: Option<Vec<Output>>) -> Cell {
    Cell {
        cell_type: cell_type.to_string(),
        execution_count: None,
        metadata: serde_json::Value::Null,
        outputs,
        source: lines.iter().map(|s| s.to_string()).collect(),
    }
}

fn stream_output(lines: &[&str]) -> Output {
    Output {
        name: "stdout".to_string(),
        output_type: "stream".to_string(),
        text: Some(lines.iter().map(|s| s.to_string()).collect()),
    }
}

#[test]
fn plain_render_one_cell_exact() {
    // The scenario from the document format: one code cell, python kernel.
    let text = r#"{"metadata":{"kernelspec":{"language":"python"}},"nbformat":4,"nbformat_minor":4,"cells":[{"cell_type":"code","execution_count":1,"metadata":{},"outputs":[],"source":["print(1)\n"]}]}"#;
    let nb = parse_notebook(text).expect("scenario input parses");
    let expected = format!(
        "---[1]{}\n0| print(1)\n---<Python>{}\n\n",
        "-".repeat(84),
        "-".repeat(79)
    );
    assert_eq!(nb.render_plain(), expected);
}

#[test]
fn highlighted_render_one_cell_structure() {
    let text = r#"{"metadata":{"kernelspec":{"language":"python"}},"nbformat":4,"nbformat_minor":4,"cells":[{"cell_type":"code","execution_count":1,"metadata":{},"outputs":[],"source":["print(1)\n"]}]}"#;
    let nb = parse_notebook(text).expect("scenario input parses");
    let out = nb.render_highlight(true);
    let header = format!("---[1]{}\n", "-".repeat(84));
    let footer = format!("---<Python>{}\n\n", "-".repeat(79));
    assert!(out.starts_with(&header));
    assert!(out.ends_with(&footer));
    assert!(out.contains("0| "));
    assert!(out.contains("print"));
}

#[test]
fn render_covers_all_cells_in_order() {
    let nb = notebook_with(
        Some("python"),
        vec![
            cell("code", &["first\n"], None),
            cell("markdown", &["second\n"], None),
            cell("raw", &["third\n"], None),
        ],
    );
    let out = nb.render_plain();
    let h1 = out.find("---[1]").expect("header 1");
    let h2 = out.find("---[2]").expect("header 2");
    let h3 = out.find("---[3]").expect("header 3");
    assert!(h1 < h2 && h2 < h3);
    let c1 = out.find("0| first\n").expect("cell 1 body");
    let c2 = out.find("0| second\n").expect("cell 2 body");
    let c3 = out.find("0| third\n").expect("cell 3 body");
    assert!(h1 < c1 && c1 < h2);
    assert!(h2 < c2 && c2 < h3);
    assert!(h3 < c3);
    // One header per cell, no cell skipped or duplicated.
    assert_eq!(out.matches("---[").count(), 3);
}

#[test]
fn plain_render_is_deterministic() {
    let nb = notebook_with(
        Some("python"),
        vec![cell("code", &["a\n", "b\n"], Some(vec![stream_output(&["x\n"])]))],
    );
    assert_eq!(nb.render_plain(), nb.render_plain());
    // The output flag plays no role in plain mode.
    assert_eq!(
        nb.render(RenderMode::Plain, true),
        nb.render(RenderMode::Plain, false)
    );
}

#[test]
fn footer_labels_code_with_language_and_others_with_cell_type() {
    let nb = notebook_with(
        Some("julia"),
        vec![cell("code", &["1\n"], None), cell("markdown", &["# t\n"], None)],
    );
    let out = nb.render_plain();
    assert!(out.contains("---<Julia>"));
    assert!(out.contains("---<markdown>"));
}

#[test]
fn unknown_language_still_renders() {
    // An unresolvable language degrades to the plain-text grammar.
    assert!(matches!(Language::from_str("cobol"), Language::Unknown));
    let nb = notebook_with(Some("cobol"), vec![cell("code", &["move 1 to x\n"], None)]);
    let out = nb.render_highlight(false);
    assert!(out.contains("0| "));
    assert!(out.contains("move 1 to x"));
    assert!(out.contains("---<Unknown>"));
}

#[test]
fn output_toggle_includes_and_omits_stream_text() {
    let c = cell(
        "code",
        &["print(1)\n"],
        Some(vec![stream_output(&["3\n"])]),
    );
    let nb = notebook_with(Some("python"), vec![c]);
    let with_output = nb.render_highlight(true);
    let without_output = nb.render_highlight(false);
    assert!(with_output.contains("3\n"));
    assert!(!without_output.contains("3\n"));
    // The interleaved text follows the numbered source line.
    assert!(with_output.find("0| ").unwrap() < with_output.find("3\n").unwrap());
    // Plain rendering never includes output.
    assert!(!nb.render(RenderMode::Plain, true).contains("3\n"));
}

#[test]
fn only_stream_outputs_are_rendered_in_order() {
    let outputs = vec![
        stream_output(&["one\n"]),
        Output {
            name: "display".to_string(),
            output_type: "display_data".to_string(),
            text: Some(vec!["hidden\n".to_string()]),
        },
        stream_output(&["two\n", "three\n"]),
    ];
    let nb = notebook_with(Some("python"), vec![cell("code", &["pass\n"], Some(outputs))]);
    let out = nb.render_highlight(true);
    assert!(out.contains("one\ntwo\nthree\n"));
    assert!(!out.contains("hidden"));
}

#[test]
fn highlighter_state_carries_across_lines() {
    // A triple-quoted string opened on the first line changes how the
    // second line is colored: the two lines are highlighted by sequential
    // calls sharing state, not by two independent single-line highlights.
    let opened = cell("code", &["\"\"\"doc\n", "word\n"], None);
    let closed = cell("code", &["x = 1\n", "word\n"], None);
    let colored_opened = opened.highlight(Language::Python, false);
    let colored_closed = closed.highlight(Language::Python, false);
    let tail_opened = colored_opened.split("1| ").nth(1).expect("second line present");
    let tail_closed = colored_closed.split("1| ").nth(1).expect("second line present");
    assert_ne!(
        tail_opened, tail_closed,
        "identical second lines must be colored differently under carried state"
    );
}

fn strip_ansi_runs(s: &str) -> String {
    let chars: Vec<char> = s.chars().collect();
    let mut out = String::new();
    let mut i = 0;
    while i < chars.len() {
        if chars[i] == '\u{1b}' && i + 2 < chars.len() && chars[i + 1] == '[' {
            let mut j = i + 2;
            while j < chars.len() && (chars[j] == ';' || chars[j].is_ascii_digit()) {
                j += 1;
            }
            if j < chars.len() && chars[j] == 'm' {
                i = j + 1;
                continue;
            }
        }
        out.push(chars[i]);
        i += 1;
    }
    out
}

#[test]
fn stripping_escapes_recovers_numbered_source() {
    // Coloring decorates but never alters the text: deleting every ANSI
    // escape run from the highlighted cell leaves its plain rendering.
    let c = cell("code", &["def f():\n", "    return \"x\"\n"], None);
    let colored = c.highlight(Language::Python, false);
    assert_eq!(strip_ansi_runs(&colored), c.join());
    let m = cell("markdown", &["# title\n", "text\n"], None);
    let colored = m.highlight(Language::Unknown, false);
    assert_eq!(strip_ansi_runs(&colored), m.join());
}

#[test]
fn highlight_is_deterministic() {
    let c = cell("code", &["def f():\n", "    return 1\n"], None);
    let a = c.highlight(Language::Python, false);
    let b = c.highlight(Language::Python, false);
    assert_eq!(a, b);
    // The engine really colored the source, and every colorized line is
    // closed by a color reset.
    assert!(a.contains('\u{1b}'));
    assert!(a.contains("\u{1b}[0m"));
}

#[test]
fn empty_cell_renders_empty_body() {
    let nb = notebook_with(None, vec![cell("code", &[], None)]);
    let out = nb.render_plain();
    let expected = format!(
        "---[1]{}\n---<Unknown>{}\n\n",
        "-".repeat(84),
        "-".repeat(78)
    );
    assert_eq!(out, expected);
}

#[test]
fn empty_notebook_renders_nothing() {
    let nb = notebook_with(Some("python"), vec![]);
    assert_eq!(nb.render_plain(), "");
    assert_eq!(nb.render_highlight(true), "");
}
