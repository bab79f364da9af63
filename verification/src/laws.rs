//! Library-wide rendering laws, stated over the same spec functions the
//! executable renderers are proved against.

use vstd::prelude::*;
use crate::lang::Language;
use crate::model::CellView;
use crate::model::NoteBookView;
use crate::model::spec_notebook_language;
use crate::render::RenderMode;
use crate::render::spec_cell_block;
use crate::render::spec_cell_highlighted;
use crate::render::spec_cell_outputs;
use crate::render::spec_cell_plain;
use crate::render::spec_plain_range;
use crate::render::spec_render;
use crate::render::spec_render_range;
use crate::text::spec_decimal;
use crate::text::spec_index_width;
use crate::text::spec_line_prefix;

verus! {

/// Plain rendering of a range of lines splits at any index inside it.
pub proof fn lemma_plain_range_split(src: Seq<Seq<char>>, w: int, lo: int, mid: int, hi: int)
    requires
        lo <= mid <= hi,
    ensures
        spec_plain_range(src, w, lo, hi) == spec_plain_range(src, w, lo, mid) + spec_plain_range(
            src,
            w,
            mid,
            hi,
        ),
    decreases hi - mid,
{
    if hi == mid {
        assert(spec_plain_range(src, w, lo, hi) =~= spec_plain_range(src, w, lo, mid)
            + spec_plain_range(src, w, mid, hi));
    } else {
        lemma_plain_range_split(src, w, lo, mid, hi - 1);
        assert(spec_plain_range(src, w, lo, hi) =~= spec_plain_range(src, w, lo, mid)
            + spec_plain_range(src, w, mid, hi));
    }
}

/// Line numbering in plain rendering: for every line index `j` of a cell,
/// the cell's plain text is the rendering of the lines before `j`, then
/// the number `j` (padded, with `"| "`), then line `j`'s original text
/// unmodified, then the rendering of the lines after `j`.
pub proof fn lemma_plain_line_numbering(c: CellView, j: int)
    requires
        0 <= j < c.source.len(),
    ensures
        spec_cell_plain(c) == spec_plain_range(
            c.source,
            spec_index_width(c.source.len() as int),
            0,
            j,
        ) + spec_line_prefix(j, spec_index_width(c.source.len() as int)) + c.source[j]
            + spec_plain_range(
            c.source,
            spec_index_width(c.source.len() as int),
            j + 1,
            c.source.len() as int,
        ),
{
    let w = spec_index_width(c.source.len() as int);
    let n = c.source.len() as int;
    lemma_plain_range_split(c.source, w, 0, j + 1, n);
    assert(spec_plain_range(c.source, w, 0, j + 1) == spec_plain_range(c.source, w, 0, j)
        + spec_line_prefix(j, w) + c.source[j]);
    assert(spec_cell_plain(c) =~= spec_plain_range(c.source, w, 0, j) + spec_line_prefix(j, w)
        + c.source[j] + spec_plain_range(c.source, w, j + 1, n));
}

/// Rendering of a range of cells splits at any index inside it.
pub proof fn lemma_render_range_split(
    nb: NoteBookView,
    mode: RenderMode,
    include_output: bool,
    lo: int,
    mid: int,
    hi: int,
)
    requires
        lo <= mid <= hi,
    ensures
        spec_render_range(nb, mode, include_output, lo, hi) == spec_render_range(
            nb,
            mode,
            include_output,
            lo,
            mid,
        ) + spec_render_range(nb, mode, include_output, mid, hi),
    decreases hi - mid,
{
    if hi == mid {
        assert(spec_render_range(nb, mode, include_output, lo, hi) =~= spec_render_range(
            nb,
            mode,
            include_output,
            lo,
            mid,
        ) + spec_render_range(nb, mode, include_output, mid, hi));
    } else {
        lemma_render_range_split(nb, mode, include_output, lo, mid, hi - 1);
        assert(spec_render_range(nb, mode, include_output, lo, hi) =~= spec_render_range(
            nb,
            mode,
            include_output,
            lo,
            mid,
        ) + spec_render_range(nb, mode, include_output, mid, hi));
    }
}

/// Cells appear in the rendered text exactly in document order: for every
/// cell index `j`, the rendering is the rendering of the cells before `j`,
/// then cell `j`'s own block carrying its 1-based position `j + 1`, then
/// the rendering of the cells after `j`; so every cell contributes one
/// block and none is skipped or reordered.
pub proof fn lemma_render_cell_order(
    nb: NoteBookView,
    mode: RenderMode,
    include_output: bool,
    j: int,
)
    requires
        0 <= j < nb.cells.len(),
    ensures
        spec_render(nb, mode, include_output) == spec_render_range(nb, mode, include_output, 0, j)
            + spec_cell_block(
            nb.cells[j],
            spec_notebook_language(nb),
            j + 1,
            spec_decimal(nb.cells.len() as int).len() as int,
            mode,
            include_output,
        ) + spec_render_range(nb, mode, include_output, j + 1, nb.cells.len() as int),
{
    let n = nb.cells.len() as int;
    lemma_render_range_split(nb, mode, include_output, 0, j + 1, n);
    assert(spec_render(nb, mode, include_output) =~= spec_render_range(
        nb,
        mode,
        include_output,
        0,
        j,
    ) + spec_cell_block(
        nb.cells[j],
        spec_notebook_language(nb),
        j + 1,
        spec_decimal(nb.cells.len() as int).len() as int,
        mode,
        include_output,
    ) + spec_render_range(nb, mode, include_output, j + 1, n));
}

/// Rendering is deterministic: two renderings of the same notebook in the
/// same mode with the same output flag are identical, character for
/// character.
pub proof fn lemma_render_deterministic(
    nb: NoteBookView,
    mode: RenderMode,
    include_output: bool,
    r1: Seq<char>,
    r2: Seq<char>,
)
    requires
        r1 == spec_render(nb, mode, include_output),
        r2 == spec_render(nb, mode, include_output),
    ensures
        r1 == r2,
{
}

/// Plain rendering never includes captured output: it does not depend on
/// the output flag at all.
pub proof fn lemma_plain_ignores_output_flag(nb: NoteBookView, a: bool, b: bool)
    ensures
        spec_render(nb, RenderMode::Plain, a) == spec_render(nb, RenderMode::Plain, b),
{
    lemma_plain_range_flag(nb, a, b, 0, nb.cells.len() as int);
}

proof fn lemma_plain_range_flag(nb: NoteBookView, a: bool, b: bool, lo: int, hi: int)
    ensures
        spec_render_range(nb, RenderMode::Plain, a, lo, hi) == spec_render_range(
            nb,
            RenderMode::Plain,
            b,
            lo,
            hi,
        ),
    decreases hi - lo,
{
    if hi > lo {
        lemma_plain_range_flag(nb, a, b, lo, hi - 1);
    }
}

/// The output-interleaving toggle: a highlighted cell with output enabled
/// is exactly the same cell rendered with output disabled, followed by its
/// stream outputs' text; with output disabled that text is omitted.
pub proof fn lemma_output_toggle(c: CellView, lang: Language)
    ensures
        spec_cell_highlighted(c, lang, true) == spec_cell_highlighted(c, lang, false)
            + spec_cell_outputs(c),
{
    assert(spec_cell_highlighted(c, lang, true) =~= spec_cell_highlighted(c, lang, false)
        + spec_cell_outputs(c));
}

} // verus!
