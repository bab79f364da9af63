//! The rendering pipeline: one cell's source lines become line-numbered
//! text, plainly or colorized with carried highlighter state, and the
//! notebook renderer wraps every cell, in document order, in separator
//! lines labeled with its position and its kind.

use vstd::prelude::*;
use crate::ansi::esc_free;
use crate::ansi::esc_free_lines;
use crate::ansi::lemma_esc_free_line_prefix;
use crate::ansi::lemma_esc_free_run_closed;
use crate::ansi::lemma_run_closed_concat;
use crate::ansi::lemma_run_end_unique;
use crate::ansi::lemma_strip_concat;
use crate::ansi::lemma_strip_esc_free;
use crate::ansi::lemma_stripped_esc_free_run_closed;
use crate::ansi::run_closed;
use crate::ansi::run_ends_at;
use crate::ansi::strip_ansi;
use crate::highlight::LineHighlighter;
use crate::highlight::escaped_line;
use crate::lang::Language;
use crate::lang::spec_language_str;
use crate::lang::spec_language_extension;
use crate::model::Cell;
use crate::model::CellView;
use crate::model::NoteBook;
use crate::model::Output;
use crate::model::NoteBookView;
use crate::model::OutputView;
use crate::model::spec_notebook_language;
use crate::text::spec_decimal;
use crate::text::spec_index_width;
use crate::text::spec_repeat;
use crate::text::spec_line_prefix;
use crate::text::spec_capitalized;
use crate::text::dec_width;
use crate::text::index_width;
use crate::text::push_decimal;
use crate::text::push_line_prefix;
use crate::text::push_repeat;

verus! {

/// Visual column budget of one separator line, excluding its newline.
pub const SEP_WIDTH: usize = 90;

/// The two rendering modes of the notebook renderer.
#[derive(Clone, Copy, Debug, PartialEq, Eq, Structural)]
pub enum RenderMode {
    Plain,
    Highlighted,
}

/// The terminal color-reset sequence emitted after every colorized line so
/// that color never bleeds into the next line or separator.
pub open spec fn spec_reset() -> Seq<char> {
    "\u{1b}[0m"@
}

/// Dashes that stretch a separator to the fixed column budget after `used`
/// characters of label or number have been placed inside its frame.
pub open spec fn spec_sep_fill(used: int) -> int {
    if used <= SEP_WIDTH - 5 {
        SEP_WIDTH - 5 - used
    } else {
        0
    }
}

/// The top separator of one cell: its 1-based position right-aligned in a
/// field of `w` characters inside a dashed frame of fixed width.
pub open spec fn spec_top_sep(pos: int, w: int) -> Seq<char> {
    "---["@ + spec_repeat(' ', w - spec_decimal(pos).len()) + spec_decimal(pos) + "]"@
        + spec_repeat('-', spec_sep_fill(w)) + "\n"@
}

/// The bottom separator of one cell: its label inside a dashed frame of
/// fixed width, then a blank line.
pub open spec fn spec_bottom_sep(label: Seq<char>) -> Seq<char> {
    "---<"@ + label + ">"@ + spec_repeat('-', spec_sep_fill(label.len() as int)) + "\n\n"@
}

/// Plain rendering of source lines `lo..hi`: each line in order, prefixed
/// by its padded 0-based number and `"| "`, its own text unmodified.
pub open spec fn spec_plain_range(src: Seq<Seq<char>>, w: int, lo: int, hi: int) -> Seq<char>
    decreases hi - lo,
{
    if hi <= lo {
        Seq::empty()
    } else {
        spec_plain_range(src, w, lo, hi - 1) + spec_line_prefix(hi - 1, w) + src[hi - 1]
    }
}

/// Plain rendering of one cell: all its source lines, numbered from 0,
/// padded to the digit width of the largest index; no color, no grammar,
/// no output.
pub open spec fn spec_cell_plain(c: CellView) -> Seq<char> {
    spec_plain_range(
        c.source,
        spec_index_width(c.source.len() as int),
        0,
        c.source.len() as int,
    )
}

/// The grammar tag a cell is highlighted with: code cells use the
/// notebook's resolved language, markdown cells the markdown grammar, and
/// every other cell type the plain-text grammar.
pub open spec fn spec_cell_tag(c: CellView, lang: Language) -> Seq<char> {
    if c.cell_type == "code"@ {
        spec_language_extension(lang)
    } else if c.cell_type == "markdown"@ {
        "md"@
    } else {
        "txt"@
    }
}

/// Highlighted rendering of source lines `lo..hi`: each line in order,
/// numbered as in plain rendering, colorized with the state carried from
/// all lines before it in the cell, and closed by a color reset.
pub open spec fn spec_hl_range(
    tag: Seq<char>,
    src: Seq<Seq<char>>,
    w: int,
    lo: int,
    hi: int,
) -> Seq<char>
    decreases hi - lo,
{
    if hi <= lo {
        Seq::empty()
    } else {
        spec_hl_range(tag, src, w, lo, hi - 1) + spec_line_prefix(hi - 1, w) + escaped_line(
            tag,
            src.take(hi - 1),
            src[hi - 1],
        ) + spec_reset()
    }
}

/// Concatenation of text lines `lo..hi`, verbatim.
pub open spec fn spec_concat_range(lines: Seq<Seq<char>>, lo: int, hi: int) -> Seq<char>
    decreases hi - lo,
{
    if hi <= lo {
        Seq::empty()
    } else {
        spec_concat_range(lines, lo, hi - 1) + lines[hi - 1]
    }
}

/// What one captured output contributes: its text lines verbatim when its
/// type is `"stream"`, nothing otherwise.
pub open spec fn spec_output_text(o: OutputView) -> Seq<char> {
    if o.output_type == "stream"@ {
        match o.text {
            Some(lines) => spec_concat_range(lines, 0, lines.len() as int),
            None => Seq::empty(),
        }
    } else {
        Seq::empty()
    }
}

/// Contribution of outputs `lo..hi`, in stored order.
pub open spec fn spec_outputs_range(os: Seq<OutputView>, lo: int, hi: int) -> Seq<char>
    decreases hi - lo,
{
    if hi <= lo {
        Seq::empty()
    } else {
        spec_outputs_range(os, lo, hi - 1) + spec_output_text(os[hi - 1])
    }
}

/// The captured output a cell contributes when output is interleaved.
pub open spec fn spec_cell_outputs(c: CellView) -> Seq<char> {
    match c.outputs {
        Some(os) => spec_outputs_range(os, 0, os.len() as int),
        None => Seq::empty(),
    }
}

/// Highlighted rendering of one cell: its numbered, colorized source, then
/// (only when `include_output` holds) its stream outputs, verbatim and
/// unnumbered.
pub open spec fn spec_cell_highlighted(c: CellView, lang: Language, include_output: bool) -> Seq<
    char,
> {
    spec_hl_range(
        spec_cell_tag(c, lang),
        c.source,
        spec_index_width(c.source.len() as int),
        0,
        c.source.len() as int,
    ) + if include_output {
        spec_cell_outputs(c)
    } else {
        Seq::empty()
    }
}

/// The label of a cell's bottom separator: the capitalized display label
/// of the resolved language for code cells, the cell type itself for any
/// other cell.
pub open spec fn spec_cell_label(c: CellView, lang: Language) -> Seq<char> {
    if c.cell_type == "code"@ {
        spec_capitalized(spec_language_str(lang))
    } else {
        c.cell_type
    }
}

/// One cell's full block: top separator with its 1-based position, the
/// cell body in the requested mode, bottom separator with its label.
pub open spec fn spec_cell_block(
    c: CellView,
    lang: Language,
    pos: int,
    w: int,
    mode: RenderMode,
    include_output: bool,
) -> Seq<char> {
    spec_top_sep(pos, w) + (if mode is Plain {
        spec_cell_plain(c)
    } else {
        spec_cell_highlighted(c, lang, include_output)
    }) + spec_bottom_sep(spec_cell_label(c, lang))
}

/// Rendering of cells `lo..hi` of a notebook, in document order.
pub open spec fn spec_render_range(
    nb: NoteBookView,
    mode: RenderMode,
    include_output: bool,
    lo: int,
    hi: int,
) -> Seq<char>
    decreases hi - lo,
{
    if hi <= lo {
        Seq::empty()
    } else {
        spec_render_range(nb, mode, include_output, lo, hi - 1) + spec_cell_block(
            nb.cells[hi - 1],
            spec_notebook_language(nb),
            hi,
            spec_decimal(nb.cells.len() as int).len() as int,
            mode,
            include_output,
        )
    }
}

/// The full rendering of a notebook: one block per cell, in document
/// order, nothing else.
pub open spec fn spec_render(nb: NoteBookView, mode: RenderMode, include_output: bool) -> Seq<
    char,
> {
    spec_render_range(nb, mode, include_output, 0, nb.cells.len() as int)
}

/// The color reset is itself one complete escape run: it is removed
/// entirely by stripping and never hides part of another run.
proof fn lemma_reset_props()
    ensures
        run_closed(spec_reset()),
        strip_ansi(spec_reset()) == Seq::<char>::empty(),
{
    broadcast use vstd::string::group_string_axioms;

    reveal_strlit("\u{1b}[0m");
    let r = spec_reset();
    assert(r.len() == 4);
    assert(r[0] == '\u{1b}' && r[1] == '[' && r[2] == '0' && r[3] == 'm');
    assert(run_ends_at(r, 0, 4)) by {
        assert(crate::ansi::is_param_char(r[2]));
    }
    lemma_run_end_unique(r, 0, 4);
    assert forall|i: int| 0 <= i < r.len() && r[i] == '\u{1b}' implies
        #[trigger] crate::ansi::starts_run(r, i) by {
        assert(i == 0);
    }
    assert(crate::ansi::strip_ansi_from(r, 4) =~= Seq::<char>::empty());
    assert(crate::ansi::strip_ansi_from(r, 0) == crate::ansi::strip_ansi_from(r, 4));
    assert(strip_ansi(r) =~= Seq::<char>::empty());
}

fn push_top_sep(out: &mut String, pos: usize, w: usize)
    ensures
        final(out)@ == old(out)@ + spec_top_sep(pos as int, w as int),
{
    out.append("---[");
    let d = dec_width(pos);
    let pad = if d < w {
        w - d
    } else {
        0
    };
    proof {
        assert(spec_repeat(' ', pad as int) =~= spec_repeat(
            ' ',
            w as int - spec_decimal(pos as int).len(),
        ));
    }
    push_repeat(out, ' ', pad);
    push_decimal(out, pos);
    out.append("]");
    let fill = if w <= SEP_WIDTH - 5 {
        SEP_WIDTH - 5 - w
    } else {
        0
    };
    push_repeat(out, '-', fill);
    out.append("\n");
    proof {
        assert(final(out)@ =~= old(out)@ + spec_top_sep(pos as int, w as int));
    }
}

fn push_bottom_sep(out: &mut String, label: &str)
    ensures
        final(out)@ == old(out)@ + spec_bottom_sep(label@),
{
    out.append("---<");
    out.append(label);
    out.append(">");
    let used = label.unicode_len();
    let fill = if used <= SEP_WIDTH - 5 {
        SEP_WIDTH - 5 - used
    } else {
        0
    };
    push_repeat(out, '-', fill);
    out.append("\n\n");
    proof {
        assert(final(out)@ =~= old(out)@ + spec_bottom_sep(label@));
    }
}

impl Cell {
    /// Plain rendering of this cell: every source line in order, prefixed
    /// by its 0-based number right-aligned to the width of the line count
    /// and `"| "`, the line text itself unmodified; no color, no grammar
    /// lookup, no output.
    pub fn join(&self) -> (r: String)
        ensures
            r@ == spec_cell_plain(self@),
    {
        let n = self.source.len();
        let w = index_width(n);
        let mut out = String::new();
        let mut i: usize = 0;
        while i < n
            invariant
                i <= n,
                n == self@.source.len(),
                w as int == spec_index_width(n as int),
                out@ == spec_plain_range(self@.source, w as int, 0, i as int),
            decreases n - i,
        {
            push_line_prefix(&mut out, i, w);
            let line = &self.source[i];
            out.append(line.as_str());
            proof {
                assert(self@.source[i as int] == line@);
            }
            i += 1;
        }
        out
    }

    /// Highlighted rendering of this cell: the same numbering as plain
    /// rendering, each line colorized by the grammar picked for the cell
    /// type with lexical state carried across the cell's lines (never
    /// reset between lines), each line closed by a color reset; then, only
    /// when `include_output` holds, every `"stream"` output's text lines
    /// in stored order, verbatim and unnumbered. Total for every cell and
    /// language: an unknown language degrades to the plain-text grammar.
    ///
    /// Coloring decorates but never alters the text: when the source lines
    /// are escape-free and output is not interleaved, deleting every ANSI
    /// escape run from the result leaves exactly the cell's plain,
    /// line-numbered rendering.
    #[verifier::loop_isolation(false)]
    pub fn highlight(&self, lang: Language, include_output: bool) -> (r: String)
        ensures
            r@ == spec_cell_highlighted(self@, lang, include_output),
            !include_output && esc_free_lines(self@.source) ==> strip_ansi(r@) == spec_cell_plain(
                self@,
            ),
    {
        let code = String::from_str("code");
        let markdown = String::from_str("markdown");
        let tag: &str = if self.cell_type.eq(&code) {
            lang.to_extension()
        } else if self.cell_type.eq(&markdown) {
            "md"
        } else {
            "txt"
        };
        let ghost gtag = spec_cell_tag(self@, lang);
        assert(tag@ == gtag);
        let n = self.source.len();
        let w = index_width(n);
        let mut h = LineHighlighter::new_for_grammar(tag);
        let mut out = String::new();
        let mut i: usize = 0;
        while i < n
            invariant
                i <= n,
                n == self@.source.len(),
                w as int == spec_index_width(n as int),
                h.grammar() == gtag,
                h.consumed() == self@.source.take(i as int),
                out@ == spec_hl_range(gtag, self@.source, w as int, 0, i as int),
                esc_free_lines(self@.source) ==> run_closed(out@),
                esc_free_lines(self@.source) ==> strip_ansi(out@) == spec_plain_range(
                    self@.source,
                    w as int,
                    0,
                    i as int,
                ),
            decreases n - i,
        {
            let ghost out0 = out@;
            push_line_prefix(&mut out, i, w);
            let line = &self.source[i];
            let colored = h.next_line(line.as_str());
            out.append(colored.as_str());
            out.append("\u{1b}[0m");
            proof {
                assert(self@.source[i as int] == line@);
                assert(self@.source.take(i as int + 1) =~= self@.source.take(i as int).push(
                    line@,
                ));
                if esc_free_lines(self@.source) {
                    let pre = spec_line_prefix(i as int, w as int);
                    assert(esc_free(line@));
                    lemma_esc_free_line_prefix(i as int, w as int);
                    lemma_esc_free_run_closed(pre);
                    lemma_strip_esc_free(pre);
                    lemma_stripped_esc_free_run_closed(colored@);
                    lemma_reset_props();
                    lemma_strip_concat(out0, pre);
                    lemma_run_closed_concat(out0, pre);
                    lemma_strip_concat(out0 + pre, colored@);
                    lemma_run_closed_concat(out0 + pre, colored@);
                    lemma_strip_concat((out0 + pre) + colored@, spec_reset());
                    lemma_run_closed_concat((out0 + pre) + colored@, spec_reset());
                    assert(out@ == ((out0 + pre) + colored@) + spec_reset());
                    assert(strip_ansi(out@) =~= spec_plain_range(
                        self@.source,
                        w as int,
                        0,
                        i as int + 1,
                    ));
                }
            }
            i += 1;
        }
        let ghost hl_part = out@;
        if include_output {
            match &self.outputs {
                Some(outs) => {
                    let ghost osv = outs@.map_values(|o: Output| o@);
                    assert(self@.outputs == Some(osv));
                    let stream = String::from_str("stream");
                    let m = outs.len();
                    let mut j: usize = 0;
                    while j < m
                        invariant
                            j <= m,
                            m == osv.len(),
                            osv == outs@.map_values(|o: Output| o@),
                            out@ == hl_part + spec_outputs_range(osv, 0, j as int),
                        decreases m - j,
                    {
                        let o = &outs[j];
                        proof {
                            assert(osv[j as int] == o@);
                        }
                        if o.output_type.eq(&stream) {
                            match &o.text {
                                Some(lines) => {
                                    let ghost lv = lines.deep_view();
                                    assert(o@.text == Some(lv));
                                    let ghost before = out@;
                                    let t = lines.len();
                                    let mut k: usize = 0;
                                    while k < t
                                        invariant
                                            k <= t,
                                            t == lv.len(),
                                            lv == lines.deep_view(),
                                            out@ == before + spec_concat_range(lv, 0, k as int),
                                        decreases t - k,
                                    {
                                        let tl = &lines[k];
                                        out.append(tl.as_str());
                                        proof {
                                            assert(lv[k as int] == tl@);
                                        }
                                        k += 1;
                                    }
                                    proof {
                                        assert(out@ =~= hl_part + spec_outputs_range(
                                            osv,
                                            0,
                                            j as int + 1,
                                        ));
                                    }
                                },
                                None => {
                                    proof {
                                        assert(out@ =~= hl_part + spec_outputs_range(
                                            osv,
                                            0,
                                            j as int + 1,
                                        ));
                                    }
                                },
                            }
                        } else {
                            proof {
                                assert(out@ =~= hl_part + spec_outputs_range(osv, 0, j as int + 1));
                            }
                        }
                        j += 1;
                    }
                    proof {
                        assert(out@ =~= spec_cell_highlighted(self@, lang, include_output));
                    }
                },
                None => {
                    proof {
                        assert(out@ =~= spec_cell_highlighted(self@, lang, include_output));
                    }
                },
            }
        } else {
            proof {
                assert(out@ =~= spec_cell_highlighted(self@, lang, include_output));
                if esc_free_lines(self@.source) {
                    assert(strip_ansi(out@) == spec_cell_plain(self@));
                }
            }
        }
        out
    }
}

impl NoteBook {
    /// Renders the whole notebook in the requested mode: for every cell in
    /// document order, a top separator carrying the cell's 1-based
    /// position, the cell body, and a labeled bottom separator; no cell is
    /// skipped or reordered, and nothing else is emitted.
    #[verifier::loop_isolation(false)]
    #[verifier::rlimit(30)]
    pub fn render(&self, mode: RenderMode, include_output: bool) -> (r: String)
        ensures
            r@ == spec_render(self@, mode, include_output),
    {
        let lang = self.get_language();
        let n = self.cells.len();
        let w = dec_width(n);
        let code = String::from_str("code");
        let mut out = String::new();
        let mut i: usize = 0;
        while i < n
            invariant
                i <= n,
                n == self@.cells.len(),
                w == spec_decimal(n as int).len(),
                lang == spec_notebook_language(self@),
                out@ == spec_render_range(self@, mode, include_output, 0, i as int),
            decreases n - i,
        {
            push_top_sep(&mut out, i + 1, w);
            let cell = &self.cells[i];
            proof {
                assert(self@.cells[i as int] == cell@);
            }
            let body = match mode {
                RenderMode::Plain => cell.join(),
                RenderMode::Highlighted => cell.highlight(lang, include_output),
            };
            out.append(body.as_str());
            let label = if cell.cell_type.eq(&code) {
                lang.display_label()
            } else {
                cell.cell_type.clone()
            };
            assert(label@ == spec_cell_label(cell@, lang));
            push_bottom_sep(&mut out, label.as_str());
            proof {
                assert(out@ =~= spec_render_range(
                    self@,
                    mode,
                    include_output,
                    0,
                    i as int + 1,
                ));
            }
            i += 1;
        }
        out
    }

    /// Plain rendering of the whole notebook; never includes captured
    /// output.
    pub fn render_plain(&self) -> (r: String)
        ensures
            r@ == spec_render(self@, RenderMode::Plain, false),
    {
        self.render(RenderMode::Plain, false)
    }

    /// Highlighted rendering of the whole notebook, interleaving stream
    /// outputs exactly when `include_output` holds.
    pub fn render_highlight(&self, include_output: bool) -> (r: String)
        ensures
            r@ == spec_render(self@, RenderMode::Highlighted, include_output),
    {
        self.render(RenderMode::Highlighted, include_output)
    }
}

} // verus!
