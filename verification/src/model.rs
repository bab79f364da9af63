//! The notebook document model: a strict, immutable in-memory
//! representation of one notebook file, with ghost views over sequences of
//! characters for every piece of text the renderer reads.

use vstd::prelude::*;
use crate::json::JsonData;
use crate::json::jdata;
use crate::lang::Language;
use crate::lang::spec_language_of;

verus! {

/// Kernel declaration block; every field is optional because real-world
/// files vary in which are present.
pub struct KernelSpec {
    pub display_name: Option<String>,
    pub language: Option<String>,
    pub name: Option<String>,
}

pub struct KernelSpecView {
    pub display_name: Option<Seq<char>>,
    pub language: Option<Seq<char>>,
    pub name: Option<Seq<char>>,
}

impl View for KernelSpec {
    type V = KernelSpecView;

    open spec fn view(&self) -> KernelSpecView {
        KernelSpecView {
            display_name: self.display_name.deep_view(),
            language: self.language.deep_view(),
            name: self.name.deep_view(),
        }
    }
}

/// Language-info block; `name` is its one required field, the rest is
/// optional, and the editor-mode hint is retained as an opaque value.
pub struct LanguageInfo {
    pub name: String,
    pub version: Option<String>,
    pub codemirror_mode: Option<serde_json::Value>,
}

pub struct LanguageInfoView {
    pub name: Seq<char>,
    pub version: Option<Seq<char>>,
    pub codemirror_mode: Option<JsonData>,
}

impl View for LanguageInfo {
    type V = LanguageInfoView;

    open spec fn view(&self) -> LanguageInfoView {
        LanguageInfoView {
            name: self.name@,
            version: self.version.deep_view(),
            codemirror_mode: match self.codemirror_mode {
                Some(v) => Some(jdata(v)),
                None => None,
            },
        }
    }
}

/// One captured execution result of a code cell; only `"stream"` outputs
/// are ever rendered.
pub struct Output {
    pub name: String,
    pub output_type: String,
    pub text: Option<Vec<String>>,
}

pub struct OutputView {
    pub name: Seq<char>,
    pub output_type: Seq<char>,
    pub text: Option<Seq<Seq<char>>>,
}

impl View for Output {
    type V = OutputView;

    open spec fn view(&self) -> OutputView {
        OutputView {
            name: self.name@,
            output_type: self.output_type@,
            text: self.text.deep_view(),
        }
    }
}

/// One notebook cell: a free-form cell type, source text stored as a list
/// of lines whose order is significant, opaque pass-through metadata, and
/// optionally the captured outputs.
pub struct Cell {
    pub cell_type: String,
    pub execution_count: Option<i64>,
    pub metadata: serde_json::Value,
    pub outputs: Option<Vec<Output>>,
    pub source: Vec<String>,
}

pub struct CellView {
    pub cell_type: Seq<char>,
    pub execution_count: Option<i64>,
    pub metadata: JsonData,
    pub outputs: Option<Seq<OutputView>>,
    pub source: Seq<Seq<char>>,
}

impl View for Cell {
    type V = CellView;

    open spec fn view(&self) -> CellView {
        CellView {
            cell_type: self.cell_type@,
            execution_count: self.execution_count,
            metadata: jdata(self.metadata),
            outputs: match self.outputs {
                Some(ref v) => Some(v@.map_values(|o: Output| o@)),
                None => None,
            },
            source: self.source.deep_view(),
        }
    }
}

/// Notebook-level metadata; both blocks are optional.
pub struct MetaData {
    pub kernelspec: Option<KernelSpec>,
    pub language_info: Option<LanguageInfo>,
}

pub struct MetaDataView {
    pub kernelspec: Option<KernelSpecView>,
    pub language_info: Option<LanguageInfoView>,
}

impl View for MetaData {
    type V = MetaDataView;

    open spec fn view(&self) -> MetaDataView {
        MetaDataView {
            kernelspec: match self.kernelspec {
                Some(ref k) => Some(k@),
                None => None,
            },
            language_info: match self.language_info {
                Some(ref l) => Some(l@),
                None => None,
            },
        }
    }
}

/// The root entity: format version (informational only), metadata, and the
/// cells in document order, which is the only rendering order.
pub struct NoteBook {
    pub metadata: MetaData,
    pub nbformat: i64,
    pub nbformat_minor: i64,
    pub cells: Vec<Cell>,
}

pub struct NoteBookView {
    pub metadata: MetaDataView,
    pub nbformat: i64,
    pub nbformat_minor: i64,
    pub cells: Seq<CellView>,
}

impl View for NoteBook {
    type V = NoteBookView;

    open spec fn view(&self) -> NoteBookView {
        NoteBookView {
            metadata: self.metadata@,
            nbformat: self.nbformat,
            nbformat_minor: self.nbformat_minor,
            cells: self.cells@.map_values(|c: Cell| c@),
        }
    }
}

/// The language a notebook's metadata declares: the kernel spec's language
/// string resolved against the known set, `Unknown` when absent.
pub open spec fn spec_notebook_language(nb: NoteBookView) -> Language {
    match nb.metadata.kernelspec {
        Some(ks) => match ks.language {
            Some(l) => spec_language_of(l),
            None => Language::Unknown,
        },
        None => Language::Unknown,
    }
}

impl Cell {
    /// Number of source lines in the cell.
    pub fn length(&self) -> (r: usize)
        ensures
            r == self@.source.len(),
    {
        self.source.len()
    }
}

impl NoteBook {
    /// Resolves the declared kernel language, `Unknown` for an absent or
    /// unrecognized declaration.
    pub fn get_language(&self) -> (r: Language)
        ensures
            r == spec_notebook_language(self@),
    {
        match &self.metadata.kernelspec {
            Some(ks) => match &ks.language {
                Some(l) => Language::from_str(l.as_str()),
                None => Language::Unknown,
            },
            None => Language::Unknown,
        }
    }
}

} // verus!
