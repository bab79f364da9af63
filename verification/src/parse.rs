//! The schema model: maps a loosely-typed JSON document into the strict
//! [`NoteBook`](crate::model::NoteBook) representation. Optional fields may
//! be absent (or null) without failing; invalid JSON, a missing required
//! field, or a field of the wrong shape is a [`ParseError`].

use vstd::prelude::*;
use crate::json::JsonData;
use crate::json::jdata;
use crate::json::jseq;
use crate::json::json_of;
use crate::json::parse_value;
use crate::json::j_get;
use crate::json::j_is_object;
use crate::json::j_is_null;
use crate::json::j_as_str;
use crate::json::j_as_array;
use crate::json::j_as_i64;
use crate::json::j_clone;
use crate::model::KernelSpec;
use crate::model::KernelSpecView;
use crate::model::LanguageInfo;
use crate::model::LanguageInfoView;
use crate::model::Output;
use crate::model::OutputView;
use crate::model::Cell;
use crate::model::CellView;
use crate::model::MetaData;
use crate::model::MetaDataView;
use crate::model::NoteBook;
use crate::model::NoteBookView;

verus! {

/// Invalid JSON, or a structurally required field absent or of the wrong
/// shape.
#[derive(Clone, Copy, Debug, PartialEq, Eq, Structural)]
pub struct ParseError;

/// The value of a key in a JSON object, `None` when the value is not an
/// object or lacks the key.
pub open spec fn jfield(d: JsonData, key: Seq<char>) -> Option<JsonData> {
    match d {
        JsonData::Obj { fields } => if fields.contains_key(key) {
            Some(fields[key])
        } else {
            None
        },
        _ => None,
    }
}

/// An optional string field: absent or null reads as `None`, a string as
/// its text, anything else is a shape error (outer `None`).
pub open spec fn opt_str_field(d: JsonData, key: Seq<char>) -> Option<Option<Seq<char>>> {
    match jfield(d, key) {
        None => Some(None),
        Some(JsonData::Null) => Some(None),
        Some(JsonData::Str { text }) => Some(Some(text)),
        Some(_) => None,
    }
}

/// A required string field: anything but a present string is a shape error.
pub open spec fn req_str_field(d: JsonData, key: Seq<char>) -> Option<Seq<char>> {
    match jfield(d, key) {
        Some(JsonData::Str { text }) => Some(text),
        _ => None,
    }
}

/// An optional integer field: absent or null reads as `None`, an integer in
/// `i64` range as its value, anything else is a shape error.
pub open spec fn opt_i64_field(d: JsonData, key: Seq<char>) -> Option<Option<i64>> {
    match jfield(d, key) {
        None => Some(None),
        Some(JsonData::Null) => Some(None),
        Some(JsonData::Num { ival: Some(n) }) => Some(Some(n)),
        Some(_) => None,
    }
}

/// A required integer field.
pub open spec fn req_i64_field(d: JsonData, key: Seq<char>) -> Option<i64> {
    match jfield(d, key) {
        Some(JsonData::Num { ival: Some(n) }) => Some(n),
        _ => None,
    }
}

/// An optional field retained as an opaque value: absent or null reads as
/// `None`, anything else is passed through unvalidated.
pub open spec fn opt_any_field(d: JsonData, key: Seq<char>) -> Option<JsonData> {
    match jfield(d, key) {
        None => None,
        Some(JsonData::Null) => None,
        Some(f) => Some(f),
    }
}

/// Extraction of a kernel spec block: must be an object; every field in it
/// is an optional string.
pub open spec fn x_kernelspec(d: JsonData) -> Option<KernelSpecView> {
    if !(d is Obj) {
        None
    } else {
        match (opt_str_field(d, "display_name"@), opt_str_field(d, "language"@), opt_str_field(
            d,
            "name"@,
        )) {
            (Some(dn), Some(la), Some(na)) => Some(
                KernelSpecView { display_name: dn, language: la, name: na },
            ),
            _ => None,
        }
    }
}

/// Extraction of a language-info block: must be an object with a required
/// string `name`; `version` is an optional string and the editor-mode hint
/// is kept opaque.
pub open spec fn x_language_info(d: JsonData) -> Option<LanguageInfoView> {
    if !(d is Obj) {
        None
    } else {
        match (req_str_field(d, "name"@), opt_str_field(d, "version"@)) {
            (Some(n), Some(v)) => Some(
                LanguageInfoView {
                    name: n,
                    version: v,
                    codemirror_mode: opt_any_field(d, "codemirror_mode"@),
                },
            ),
            _ => None,
        }
    }
}

/// Extraction of the notebook metadata: must be an object; both blocks are
/// optional (absent or null), but when present must have the right shape.
pub open spec fn x_metadata(d: JsonData) -> Option<MetaDataView> {
    if !(d is Obj) {
        None
    } else {
        let ks = match jfield(d, "kernelspec"@) {
            None => Some(None),
            Some(JsonData::Null) => Some(None),
            Some(k) => match x_kernelspec(k) {
                Some(kv) => Some(Some(kv)),
                None => None,
            },
        };
        let li = match jfield(d, "language_info"@) {
            None => Some(None),
            Some(JsonData::Null) => Some(None),
            Some(l) => match x_language_info(l) {
                Some(lv) => Some(Some(lv)),
                None => None,
            },
        };
        match (ks, li) {
            (Some(k), Some(l)) => Some(MetaDataView { kernelspec: k, language_info: l }),
            _ => None,
        }
    }
}

/// Extraction of the items of a list of strings, from index `i` on.
pub open spec fn x_str_from(items: Seq<JsonData>, i: int) -> Option<Seq<Seq<char>>>
    decreases items.len() - i,
{
    if i < 0 || i >= items.len() {
        Some(Seq::empty())
    } else {
        match items[i] {
            JsonData::Str { text } => match x_str_from(items, i + 1) {
                Some(rest) => Some(seq![text] + rest),
                None => None,
            },
            _ => None,
        }
    }
}

/// Extraction of one captured output: must be an object with required
/// string `name` and `output_type`; `text` is an optional list of strings.
pub open spec fn x_output(d: JsonData) -> Option<OutputView> {
    if !(d is Obj) {
        None
    } else {
        let text = match jfield(d, "text"@) {
            None => Some(None),
            Some(JsonData::Null) => Some(None),
            Some(JsonData::Arr { items }) => match x_str_from(items, 0) {
                Some(t) => Some(Some(t)),
                None => None,
            },
            Some(_) => None,
        };
        match (req_str_field(d, "name"@), req_str_field(d, "output_type"@), text) {
            (Some(n), Some(t), Some(x)) => Some(OutputView { name: n, output_type: t, text: x }),
            _ => None,
        }
    }
}

/// Extraction of a list of outputs, from index `i` on.
pub open spec fn x_outputs_from(items: Seq<JsonData>, i: int) -> Option<Seq<OutputView>>
    decreases items.len() - i,
{
    if i < 0 || i >= items.len() {
        Some(Seq::empty())
    } else {
        match x_output(items[i]) {
            Some(o) => match x_outputs_from(items, i + 1) {
                Some(rest) => Some(seq![o] + rest),
                None => None,
            },
            None => None,
        }
    }
}

/// Extraction of one cell: must be an object with a required string
/// `cell_type`, a required `source` list of strings, and a required
/// `metadata` of any shape (kept opaque); `execution_count` is an optional
/// integer and `outputs` an optional list of outputs.
pub open spec fn x_cell(d: JsonData) -> Option<CellView> {
    if !(d is Obj) {
        None
    } else {
        let outputs = match jfield(d, "outputs"@) {
            None => Some(None),
            Some(JsonData::Null) => Some(None),
            Some(JsonData::Arr { items }) => match x_outputs_from(items, 0) {
                Some(o) => Some(Some(o)),
                None => None,
            },
            Some(_) => None,
        };
        let source = match jfield(d, "source"@) {
            Some(JsonData::Arr { items }) => x_str_from(items, 0),
            _ => None,
        };
        match (
            req_str_field(d, "cell_type"@),
            opt_i64_field(d, "execution_count"@),
            jfield(d, "metadata"@),
            outputs,
            source,
        ) {
            (Some(ct), Some(ec), Some(md), Some(os), Some(sr)) => Some(
                CellView {
                    cell_type: ct,
                    execution_count: ec,
                    metadata: md,
                    outputs: os,
                    source: sr,
                },
            ),
            _ => None,
        }
    }
}

/// Extraction of the cells, from index `i` on.
pub open spec fn x_cells_from(items: Seq<JsonData>, i: int) -> Option<Seq<CellView>>
    decreases items.len() - i,
{
    if i < 0 || i >= items.len() {
        Some(Seq::empty())
    } else {
        match x_cell(items[i]) {
            Some(c) => match x_cells_from(items, i + 1) {
                Some(rest) => Some(seq![c] + rest),
                None => None,
            },
            None => None,
        }
    }
}

/// Extraction of the whole document: must be an object with a required
/// `metadata` object, required integer `nbformat` and `nbformat_minor`, and
/// a required `cells` array.
pub open spec fn x_notebook(d: JsonData) -> Option<NoteBookView> {
    if !(d is Obj) {
        None
    } else {
        let md = match jfield(d, "metadata"@) {
            Some(m) => x_metadata(m),
            None => None,
        };
        let cells = match jfield(d, "cells"@) {
            Some(JsonData::Arr { items }) => x_cells_from(items, 0),
            _ => None,
        };
        match (md, req_i64_field(d, "nbformat"@), req_i64_field(d, "nbformat_minor"@), cells) {
            (Some(m), Some(f), Some(fm), Some(cs)) => Some(
                NoteBookView { metadata: m, nbformat: f, nbformat_minor: fm, cells: cs },
            ),
            _ => None,
        }
    }
}

/// What parsing a document text yields: `None` exactly when the text is not
/// well-formed JSON or the document does not extract to a notebook.
pub open spec fn spec_parse(s: Seq<char>) -> Option<NoteBookView> {
    match json_of(s) {
        None => None,
        Some(d) => x_notebook(d),
    }
}

fn get_opt_str(v: &serde_json::Value, key: &str) -> (r: Result<Option<String>, ParseError>)
    ensures
        r is Ok <==> opt_str_field(jdata(*v), key@) is Some,
        r matches Ok(o) ==> Some(o.deep_view()) == opt_str_field(jdata(*v), key@),
{
    match j_get(v, key) {
        None => Ok(None),
        Some(f) => {
            if j_is_null(f) {
                Ok(None)
            } else {
                match j_as_str(f) {
                    Some(s) => Ok(Some(String::from_str(s))),
                    None => Err(ParseError),
                }
            }
        },
    }
}

fn get_req_str(v: &serde_json::Value, key: &str) -> (r: Result<String, ParseError>)
    ensures
        r is Ok <==> req_str_field(jdata(*v), key@) is Some,
        r matches Ok(s) ==> Some(s@) == req_str_field(jdata(*v), key@),
{
    match j_get(v, key) {
        None => Err(ParseError),
        Some(f) => match j_as_str(f) {
            Some(s) => Ok(String::from_str(s)),
            None => Err(ParseError),
        },
    }
}

fn get_opt_i64(v: &serde_json::Value, key: &str) -> (r: Result<Option<i64>, ParseError>)
    ensures
        r is Ok <==> opt_i64_field(jdata(*v), key@) is Some,
        r matches Ok(o) ==> Some(o) == opt_i64_field(jdata(*v), key@),
{
    match j_get(v, key) {
        None => Ok(None),
        Some(f) => {
            if j_is_null(f) {
                Ok(None)
            } else {
                match j_as_i64(f) {
                    Some(n) => Ok(Some(n)),
                    None => Err(ParseError),
                }
            }
        },
    }
}

fn get_req_i64(v: &serde_json::Value, key: &str) -> (r: Result<i64, ParseError>)
    ensures
        r is Ok <==> req_i64_field(jdata(*v), key@) is Some,
        r matches Ok(n) ==> Some(n) == req_i64_field(jdata(*v), key@),
{
    match j_get(v, key) {
        None => Err(ParseError),
        Some(f) => match j_as_i64(f) {
            Some(n) => Ok(n),
            None => Err(ParseError),
        },
    }
}

fn get_opt_any(v: &serde_json::Value, key: &str) -> (r: Option<serde_json::Value>)
    ensures
        r is Some <==> opt_any_field(jdata(*v), key@) is Some,
        r matches Some(x) ==> Some(jdata(x)) == opt_any_field(jdata(*v), key@),
{
    match j_get(v, key) {
        None => None,
        Some(f) => {
            if j_is_null(f) {
                None
            } else {
                Some(j_clone(f))
            }
        },
    }
}

fn parse_kernelspec(v: &serde_json::Value) -> (r: Result<KernelSpec, ParseError>)
    ensures
        r is Ok <==> x_kernelspec(jdata(*v)) is Some,
        r matches Ok(k) ==> Some(k@) == x_kernelspec(jdata(*v)),
{
    if !j_is_object(v) {
        return Err(ParseError);
    }
    let display_name = match get_opt_str(v, "display_name") {
        Ok(d) => d,
        Err(e) => return Err(e),
    };
    let language = match get_opt_str(v, "language") {
        Ok(l) => l,
        Err(e) => return Err(e),
    };
    let name = match get_opt_str(v, "name") {
        Ok(n) => n,
        Err(e) => return Err(e),
    };
    Ok(KernelSpec { display_name, language, name })
}

fn parse_language_info(v: &serde_json::Value) -> (r: Result<LanguageInfo, ParseError>)
    ensures
        r is Ok <==> x_language_info(jdata(*v)) is Some,
        r matches Ok(l) ==> Some(l@) == x_language_info(jdata(*v)),
{
    if !j_is_object(v) {
        return Err(ParseError);
    }
    let name = match get_req_str(v, "name") {
        Ok(n) => n,
        Err(e) => return Err(e),
    };
    let version = match get_opt_str(v, "version") {
        Ok(ve) => ve,
        Err(e) => return Err(e),
    };
    let codemirror_mode = get_opt_any(v, "codemirror_mode");
    Ok(LanguageInfo { name, version, codemirror_mode })
}

fn parse_metadata(v: &serde_json::Value) -> (r: Result<MetaData, ParseError>)
    ensures
        r is Ok <==> x_metadata(jdata(*v)) is Some,
        r matches Ok(m) ==> Some(m@) == x_metadata(jdata(*v)),
{
    if !j_is_object(v) {
        return Err(ParseError);
    }
    let kernelspec = match j_get(v, "kernelspec") {
        None => None,
        Some(f) => {
            if j_is_null(f) {
                None
            } else {
                match parse_kernelspec(f) {
                    Ok(k) => Some(k),
                    Err(e) => return Err(e),
                }
            }
        },
    };
    let language_info = match j_get(v, "language_info") {
        None => None,
        Some(f) => {
            if j_is_null(f) {
                None
            } else {
                match parse_language_info(f) {
                    Ok(l) => Some(l),
                    Err(e) => return Err(e),
                }
            }
        },
    };
    Ok(MetaData { kernelspec, language_info })
}

fn parse_str_list(arr: &Vec<serde_json::Value>) -> (r: Result<Vec<String>, ParseError>)
    ensures
        r is Ok <==> x_str_from(jseq(arr@), 0) is Some,
        r matches Ok(ss) ==> Some(ss.deep_view()) == x_str_from(jseq(arr@), 0),
{
    let ghost items = jseq(arr@);
    let mut out: Vec<String> = Vec::new();
    let mut i: usize = 0;
    while i < arr.len()
        invariant
            0 <= i <= arr.len(),
            items == jseq(arr@),
            items.len() == arr@.len(),
            x_str_from(items, 0) is Some <==> x_str_from(items, i as int) is Some,
            x_str_from(items, 0) matches Some(full) ==> (x_str_from(items, i as int) matches Some(
                rest,
            ) && full == out.deep_view() + rest),
        decreases arr.len() - i,
    {
        assert(items[i as int] == jdata(arr@[i as int]));
        match j_as_str(&arr[i]) {
            Some(s) => {
                let ghost old_out = out.deep_view();
                out.push(String::from_str(s));
                proof {
                    assert(out.deep_view() =~= old_out.push(s@));
                    if let Some(full) = x_str_from(items, 0) {
                        if let JsonData::Str { text } = items[i as int] {
                            if let Some(rest) = x_str_from(items, i + 1) {
                                assert(old_out + (seq![text] + rest) =~= old_out.push(text) + rest);
                            }
                        }
                    }
                }
            },
            None => {
                assert(x_str_from(items, i as int) is None);
                return Err(ParseError);
            },
        }
        i += 1;
    }
    assert(x_str_from(items, i as int) == Some(Seq::<Seq<char>>::empty()));
    proof {
        if let Some(full) = x_str_from(items, 0) {
            assert(full =~= out.deep_view());
        }
    }
    Ok(out)
}

fn parse_output(v: &serde_json::Value) -> (r: Result<Output, ParseError>)
    ensures
        r is Ok <==> x_output(jdata(*v)) is Some,
        r matches Ok(o) ==> Some(o@) == x_output(jdata(*v)),
{
    if !j_is_object(v) {
        return Err(ParseError);
    }
    let name = match get_req_str(v, "name") {
        Ok(n) => n,
        Err(e) => return Err(e),
    };
    let output_type = match get_req_str(v, "output_type") {
        Ok(t) => t,
        Err(e) => return Err(e),
    };
    let text = match j_get(v, "text") {
        None => None,
        Some(f) => {
            if j_is_null(f) {
                None
            } else {
                match j_as_array(f) {
                    None => return Err(ParseError),
                    Some(arr) => match parse_str_list(arr) {
                        Ok(t) => Some(t),
                        Err(e) => return Err(e),
                    },
                }
            }
        },
    };
    Ok(Output { name, output_type, text })
}

fn parse_outputs(arr: &Vec<serde_json::Value>) -> (r: Result<Vec<Output>, ParseError>)
    ensures
        r is Ok <==> x_outputs_from(jseq(arr@), 0) is Some,
        r matches Ok(os) ==> Some(os@.map_values(|o: Output| o@)) == x_outputs_from(jseq(arr@), 0),
{
    let ghost items = jseq(arr@);
    let mut out: Vec<Output> = Vec::new();
    let mut i: usize = 0;
    while i < arr.len()
        invariant
            0 <= i <= arr.len(),
            items == jseq(arr@),
            items.len() == arr@.len(),
            x_outputs_from(items, 0) is Some <==> x_outputs_from(items, i as int) is Some,
            x_outputs_from(items, 0) matches Some(full) ==> (x_outputs_from(
                items,
                i as int,
            ) matches Some(rest) && full == out@.map_values(|o: Output| o@) + rest),
        decreases arr.len() - i,
    {
        assert(items[i as int] == jdata(arr@[i as int]));
        match parse_output(&arr[i]) {
            Ok(o) => {
                let ghost old_out = out@.map_values(|x: Output| x@);
                let ghost ov = o@;
                out.push(o);
                proof {
                    assert(out@.map_values(|x: Output| x@) =~= old_out.push(ov));
                    if let Some(full) = x_outputs_from(items, 0) {
                        if let Some(rest) = x_outputs_from(items, i + 1) {
                            assert(old_out + (seq![ov] + rest) =~= old_out.push(ov) + rest);
                        }
                    }
                }
            },
            Err(e) => {
                assert(x_outputs_from(items, i as int) is None);
                return Err(e);
            },
        }
        i += 1;
    }
    assert(x_outputs_from(items, i as int) == Some(Seq::<OutputView>::empty()));
    proof {
        if let Some(full) = x_outputs_from(items, 0) {
            assert(full =~= out@.map_values(|o: Output| o@));
        }
    }
    Ok(out)
}

fn parse_cell(v: &serde_json::Value) -> (r: Result<Cell, ParseError>)
    ensures
        r is Ok <==> x_cell(jdata(*v)) is Some,
        r matches Ok(c) ==> Some(c@) == x_cell(jdata(*v)),
{
    if !j_is_object(v) {
        return Err(ParseError);
    }
    let cell_type = match get_req_str(v, "cell_type") {
        Ok(t) => t,
        Err(e) => return Err(e),
    };
    let execution_count = match get_opt_i64(v, "execution_count") {
        Ok(c) => c,
        Err(e) => return Err(e),
    };
    let metadata = match j_get(v, "metadata") {
        None => return Err(ParseError),
        Some(m) => j_clone(m),
    };
    let outputs = match j_get(v, "outputs") {
        None => None,
        Some(f) => {
            if j_is_null(f) {
                None
            } else {
                match j_as_array(f) {
                    None => return Err(ParseError),
                    Some(arr) => match parse_outputs(arr) {
                        Ok(os) => Some(os),
                        Err(e) => return Err(e),
                    },
                }
            }
        },
    };
    let source = match j_get(v, "source") {
        None => return Err(ParseError),
        Some(f) => match j_as_array(f) {
            None => return Err(ParseError),
            Some(arr) => match parse_str_list(arr) {
                Ok(ss) => ss,
                Err(e) => return Err(e),
            },
        },
    };
    Ok(Cell { cell_type, execution_count, metadata, outputs, source })
}

fn parse_cells(arr: &Vec<serde_json::Value>) -> (r: Result<Vec<Cell>, ParseError>)
    ensures
        r is Ok <==> x_cells_from(jseq(arr@), 0) is Some,
        r matches Ok(cs) ==> Some(cs@.map_values(|c: Cell| c@)) == x_cells_from(jseq(arr@), 0),
{
    let ghost items = jseq(arr@);
    let mut out: Vec<Cell> = Vec::new();
    let mut i: usize = 0;
    while i < arr.len()
        invariant
            0 <= i <= arr.len(),
            items == jseq(arr@),
            items.len() == arr@.len(),
            x_cells_from(items, 0) is Some <==> x_cells_from(items, i as int) is Some,
            x_cells_from(items, 0) matches Some(full) ==> (x_cells_from(
                items,
                i as int,
            ) matches Some(rest) && full == out@.map_values(|c: Cell| c@) + rest),
        decreases arr.len() - i,
    {
        assert(items[i as int] == jdata(arr@[i as int]));
        match parse_cell(&arr[i]) {
            Ok(c) => {
                let ghost old_out = out@.map_values(|x: Cell| x@);
                let ghost cv = c@;
                out.push(c);
                proof {
                    assert(out@.map_values(|x: Cell| x@) =~= old_out.push(cv));
                    if let Some(full) = x_cells_from(items, 0) {
                        if let Some(rest) = x_cells_from(items, i + 1) {
                            assert(old_out + (seq![cv] + rest) =~= old_out.push(cv) + rest);
                        }
                    }
                }
            },
            Err(e) => {
                assert(x_cells_from(items, i as int) is None);
                return Err(e);
            },
        }
        i += 1;
    }
    assert(x_cells_from(items, i as int) == Some(Seq::<CellView>::empty()));
    proof {
        if let Some(full) = x_cells_from(items, 0) {
            assert(full =~= out@.map_values(|c: Cell| c@));
        }
    }
    Ok(out)
}

/// Parses one notebook document. Returns `Ok` exactly when the text is
/// well-formed JSON whose document shape extracts to a notebook, and then
/// returns exactly that notebook; every other input is a [`ParseError`].
pub fn parse_notebook(s: &str) -> (r: Result<NoteBook, ParseError>)
    ensures
        r is Ok <==> spec_parse(s@) is Some,
        r matches Ok(nb) ==> Some(nb@) == spec_parse(s@),
{
    let v = match parse_value(s) {
        None => return Err(ParseError),
        Some(v) => v,
    };
    if !j_is_object(&v) {
        return Err(ParseError);
    }
    let metadata = match j_get(&v, "metadata") {
        None => return Err(ParseError),
        Some(m) => match parse_metadata(m) {
            Ok(md) => md,
            Err(e) => return Err(e),
        },
    };
    let nbformat = match get_req_i64(&v, "nbformat") {
        Ok(n) => n,
        Err(e) => return Err(e),
    };
    let nbformat_minor = match get_req_i64(&v, "nbformat_minor") {
        Ok(n) => n,
        Err(e) => return Err(e),
    };
    let cells = match j_get(&v, "cells") {
        None => return Err(ParseError),
        Some(f) => match j_as_array(f) {
            None => return Err(ParseError),
            Some(arr) => match parse_cells(arr) {
                Ok(cs) => cs,
                Err(e) => return Err(e),
            },
        },
    };
    Ok(NoteBook { metadata, nbformat, nbformat_minor, cells })
}

} // verus!
