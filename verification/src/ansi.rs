//! What colorized text says once its color is removed: a model of ANSI
//! select-graphic-rendition escape runs (`ESC [ params m`) and of the text
//! that remains when every complete run is deleted, with the lemmas that
//! let the renderers relate colorized output back to the source text.

use vstd::prelude::*;
use crate::text::spec_decimal;
use crate::text::spec_digit;
use crate::text::spec_line_prefix;
use crate::text::spec_repeat;

verus! {

/// A character allowed inside an escape run's parameter list.
pub open spec fn is_param_char(c: char) -> bool {
    c == ';' || ('0' <= c && c <= '9')
}

/// `s[i..j]` is one complete escape run: `ESC '['`, parameters, `'m'`.
pub open spec fn run_ends_at(s: Seq<char>, i: int, j: int) -> bool {
    &&& i + 3 <= j <= s.len()
    &&& s[i] == '\u{1b}'
    &&& s[i + 1] == '['
    &&& s[j - 1] == 'm'
    &&& forall|t: int| i + 2 <= t < j - 1 ==> #[trigger] is_param_char(s[t])
}

/// A complete escape run begins at `i`.
pub open spec fn starts_run(s: Seq<char>, i: int) -> bool {
    exists|j: int| run_ends_at(s, i, j)
}

/// Where the run beginning at `i` ends (meaningful only under
/// [`starts_run`]; the end is unique, see [`lemma_run_end_unique`]).
pub open spec fn run_end(s: Seq<char>, i: int) -> int {
    choose|j: int| run_ends_at(s, i, j)
}

/// The text from position `i` on with every complete escape run deleted;
/// a character that does not begin a complete run is kept, so a truncated
/// run is ordinary text.
pub open spec fn strip_ansi_from(s: Seq<char>, i: int) -> Seq<char>
    decreases s.len() - i,
{
    if i < 0 || i >= s.len() {
        Seq::empty()
    } else if starts_run(s, i) {
        strip_ansi_from(s, run_end(s, i))
    } else {
        seq![s[i]] + strip_ansi_from(s, i + 1)
    }
}

/// The text with every complete escape run deleted.
pub open spec fn strip_ansi(s: Seq<char>) -> Seq<char> {
    strip_ansi_from(s, 0)
}

/// The text holds no escape character at all.
pub open spec fn esc_free(s: Seq<char>) -> bool {
    forall|t: int| 0 <= t < s.len() ==> s[t] != '\u{1b}'
}

/// Every line of the list is escape-free.
pub open spec fn esc_free_lines(src: Seq<Seq<char>>) -> bool {
    forall|i: int| 0 <= i < src.len() ==> esc_free(#[trigger] src[i])
}

/// Every escape character in the text begins a complete run inside it.
pub open spec fn run_closed(s: Seq<char>) -> bool {
    forall|i: int| 0 <= i < s.len() && s[i] == '\u{1b}' ==> #[trigger] starts_run(s, i)
}

/// A run's end is unique: its closing `'m'` is not a parameter character,
/// so no shorter or longer run shares the same start.
pub proof fn lemma_run_end_unique(s: Seq<char>, i: int, j: int)
    requires
        run_ends_at(s, i, j),
    ensures
        starts_run(s, i),
        run_end(s, i) == j,
{
    assert(starts_run(s, i));
    let j2 = run_end(s, i);
    assert(run_ends_at(s, i, j2));
    if j2 < j {
        assert(is_param_char(s[j2 - 1]));
        assert(false);
    }
    if j < j2 {
        assert(is_param_char(s[j - 1]));
        assert(false);
    }
}

proof fn lemma_strip_esc_free_from(s: Seq<char>, i: int)
    requires
        0 <= i <= s.len(),
        esc_free(s),
    ensures
        strip_ansi_from(s, i) == s.skip(i),
    decreases s.len() - i,
{
    if i < s.len() {
        assert(!starts_run(s, i)) by {
            if starts_run(s, i) {
                let j = run_end(s, i);
                assert(run_ends_at(s, i, j));
                assert(s[i] == '\u{1b}');
            }
        }
        lemma_strip_esc_free_from(s, i + 1);
        assert(seq![s[i]] + s.skip(i + 1) =~= s.skip(i));
    } else {
        assert(s.skip(i) =~= Seq::<char>::empty());
    }
}

/// Escape-free text is left exactly as it is by stripping.
pub proof fn lemma_strip_esc_free(s: Seq<char>)
    requires
        esc_free(s),
    ensures
        strip_ansi(s) == s,
{
    lemma_strip_esc_free_from(s, 0);
    assert(s.skip(0) =~= s);
}

/// Escape-free text is trivially run-closed.
pub proof fn lemma_esc_free_run_closed(s: Seq<char>)
    requires
        esc_free(s),
    ensures
        run_closed(s),
{
}

proof fn lemma_strip_shift(a: Seq<char>, b: Seq<char>, k: int)
    requires
        0 <= k <= b.len(),
    ensures
        strip_ansi_from(a + b, a.len() + k) == strip_ansi_from(b, k),
    decreases b.len() - k,
{
    let s = a + b;
    let i = a.len() + k;
    if k < b.len() {
        if starts_run(b, k) {
            let j = run_end(b, k);
            assert(run_ends_at(b, k, j));
            assert(run_ends_at(s, i, a.len() + j)) by {
                assert forall|t: int| i + 2 <= t < a.len() + j - 1 implies #[trigger] is_param_char(
                    s[t],
                ) by {
                    assert(s[t] == b[t - a.len()]);
                    assert(is_param_char(b[t - a.len()]));
                }
            }
            lemma_run_end_unique(s, i, a.len() + j);
            lemma_run_end_unique(b, k, j);
            lemma_strip_shift(a, b, j);
        } else {
            assert(!starts_run(s, i)) by {
                if starts_run(s, i) {
                    let j2 = run_end(s, i);
                    assert(run_ends_at(s, i, j2));
                    let j = j2 - a.len();
                    assert(run_ends_at(b, k, j)) by {
                        assert forall|t: int| k + 2 <= t < j - 1 implies #[trigger] is_param_char(
                            b[t],
                        ) by {
                            assert(b[t] == s[t + a.len()]);
                            assert(is_param_char(s[t + a.len()]));
                        }
                    }
                }
            }
            lemma_strip_shift(a, b, k + 1);
            assert(s[i] == b[k]);
        }
    }
}

proof fn lemma_strip_concat_from(a: Seq<char>, b: Seq<char>, i: int)
    requires
        0 <= i <= a.len(),
        run_closed(a),
    ensures
        strip_ansi_from(a + b, i) == strip_ansi_from(a, i) + strip_ansi(b),
    decreases a.len() - i,
{
    let s = a + b;
    if i == a.len() {
        lemma_strip_shift(a, b, 0);
        assert(strip_ansi_from(a, i) =~= Seq::<char>::empty());
        assert(Seq::<char>::empty() + strip_ansi(b) =~= strip_ansi(b));
    } else {
        if a[i] == '\u{1b}' {
            assert(starts_run(a, i));
            let j = run_end(a, i);
            assert(run_ends_at(a, i, j));
            assert(run_ends_at(s, i, j)) by {
                assert forall|t: int| i + 2 <= t < j - 1 implies #[trigger] is_param_char(
                    s[t],
                ) by {
                    assert(s[t] == a[t]);
                    assert(is_param_char(a[t]));
                }
            }
            lemma_run_end_unique(s, i, j);
            lemma_strip_concat_from(a, b, j);
        } else {
            assert(!starts_run(a, i)) by {
                if starts_run(a, i) {
                    let j2 = run_end(a, i);
                    assert(run_ends_at(a, i, j2));
                }
            }
            assert(!starts_run(s, i)) by {
                if starts_run(s, i) {
                    let j2 = run_end(s, i);
                    assert(run_ends_at(s, i, j2));
                    assert(s[i] == '\u{1b}');
                    assert(s[i] == a[i]);
                }
            }
            lemma_strip_concat_from(a, b, i + 1);
            assert(s[i] == a[i]);
            assert(seq![a[i]] + (strip_ansi_from(a, i + 1) + strip_ansi(b)) =~= (seq![a[i]]
                + strip_ansi_from(a, i + 1)) + strip_ansi(b));
        }
    }
}

/// Stripping distributes over concatenation when the left part is
/// run-closed: no run can straddle the boundary.
pub proof fn lemma_strip_concat(a: Seq<char>, b: Seq<char>)
    requires
        run_closed(a),
    ensures
        strip_ansi(a + b) == strip_ansi(a) + strip_ansi(b),
{
    lemma_strip_concat_from(a, b, 0);
}

/// Run-closedness is kept by concatenation.
pub proof fn lemma_run_closed_concat(a: Seq<char>, b: Seq<char>)
    requires
        run_closed(a),
        run_closed(b),
    ensures
        run_closed(a + b),
{
    let s = a + b;
    assert forall|i: int| 0 <= i < s.len() && s[i] == '\u{1b}' implies #[trigger] starts_run(
        s,
        i,
    ) by {
        if i < a.len() {
            assert(a[i] == '\u{1b}');
            assert(starts_run(a, i));
            let j = run_end(a, i);
            assert(run_ends_at(a, i, j));
            assert(run_ends_at(s, i, j)) by {
                assert forall|t: int| i + 2 <= t < j - 1 implies #[trigger] is_param_char(
                    s[t],
                ) by {
                    assert(s[t] == a[t]);
                    assert(is_param_char(a[t]));
                }
            }
        } else {
            let k = i - a.len();
            assert(b[k] == '\u{1b}');
            assert(starts_run(b, k));
            let j = run_end(b, k);
            assert(run_ends_at(b, k, j));
            assert(run_ends_at(s, i, a.len() + j)) by {
                assert forall|t: int| i + 2 <= t < a.len() + j - 1 implies #[trigger] is_param_char(
                    s[t],
                ) by {
                    assert(s[t] == b[t - a.len()]);
                    assert(is_param_char(b[t - a.len()]));
                }
            }
        }
    }
}

proof fn lemma_stripped_esc_free_from(s: Seq<char>, p: int)
    requires
        0 <= p <= s.len(),
        esc_free(strip_ansi_from(s, p)),
    ensures
        forall|i: int| p <= i < s.len() && s[i] == '\u{1b}' ==> #[trigger] starts_run(s, i),
    decreases s.len() - p,
{
    if p < s.len() {
        if starts_run(s, p) {
            let e = run_end(s, p);
            assert(run_ends_at(s, p, e));
            lemma_stripped_esc_free_from(s, e);
            assert forall|i: int| p <= i < s.len() && s[i] == '\u{1b}' implies
                #[trigger] starts_run(s, i) by {
                if i < e {
                    if i == p + 1 {
                        assert(s[i] == '[');
                        assert(false);
                    } else if p + 2 <= i < e - 1 {
                        assert(is_param_char(s[i]));
                        assert(false);
                    } else if i == e - 1 {
                        assert(s[i] == 'm');
                        assert(false);
                    }
                }
            }
        } else {
            let rest = strip_ansi_from(s, p + 1);
            assert(strip_ansi_from(s, p) == seq![s[p]] + rest);
            assert(s[p] != '\u{1b}') by {
                assert(strip_ansi_from(s, p)[0] == s[p]);
            }
            assert(esc_free(rest)) by {
                assert forall|t: int| 0 <= t < rest.len() implies rest[t] != '\u{1b}' by {
                    assert(rest[t] == (seq![s[p]] + rest)[t + 1]);
                }
            }
            lemma_stripped_esc_free_from(s, p + 1);
        }
    }
}

/// Escape-freedom is kept by concatenation.
pub proof fn lemma_esc_free_concat(a: Seq<char>, b: Seq<char>)
    requires
        esc_free(a),
        esc_free(b),
    ensures
        esc_free(a + b),
{
    assert forall|t: int| 0 <= t < (a + b).len() implies (a + b)[t] != '\u{1b}' by {
        if t >= a.len() {
            assert((a + b)[t] == b[t - a.len()]);
        }
    }
}

/// Repetitions of a non-escape character are escape-free.
pub proof fn lemma_esc_free_repeat(c: char, n: int)
    requires
        c != '\u{1b}',
    ensures
        esc_free(spec_repeat(c, n)),
    decreases n,
{
    if n > 0 {
        lemma_esc_free_repeat(c, n - 1);
        let s = spec_repeat(c, n);
        assert forall|t: int| 0 <= t < s.len() implies s[t] != '\u{1b}' by {
            if t < s.len() - 1 {
                assert(s[t] == spec_repeat(c, n - 1)[t]);
            }
        }
    }
}

/// Decimal representations are escape-free.
pub proof fn lemma_esc_free_decimal(n: int)
    ensures
        esc_free(spec_decimal(n)),
    decreases n,
{
    assert(spec_digit(n % 10) != '\u{1b}');
    assert(spec_digit(n) != '\u{1b}');
    if n >= 10 {
        lemma_esc_free_decimal(n / 10);
        lemma_esc_free_concat(spec_decimal(n / 10), seq![spec_digit(n % 10)]);
    }
}

/// Line-number prefixes are escape-free.
pub proof fn lemma_esc_free_line_prefix(i: int, w: int)
    ensures
        esc_free(spec_line_prefix(i, w)),
{
    lemma_esc_free_repeat(' ', w - spec_decimal(i).len());
    lemma_esc_free_decimal(i);
    lemma_esc_free_concat(spec_repeat(' ', w - spec_decimal(i).len()), spec_decimal(i));
    lemma_esc_free_concat(
        spec_repeat(' ', w - spec_decimal(i).len()) + spec_decimal(i),
        seq!['|', ' '],
    );
}

/// If the stripped text is escape-free, every escape character of the
/// original began a complete run: a colorized text whose stripped form is
/// the escape-free source line is run-closed.
pub proof fn lemma_stripped_esc_free_run_closed(s: Seq<char>)
    requires
        esc_free(strip_ansi(s)),
    ensures
        run_closed(s),
{
    lemma_stripped_esc_free_from(s, 0);
}

} // verus!
