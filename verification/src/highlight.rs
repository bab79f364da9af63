//! Bridge to the syntax-highlighting engine: one [`LineHighlighter`] per
//! cell colors the cell's source one line at a time, carrying the engine's
//! lexical state forward across the lines of that cell and never beyond it.

use vstd::prelude::*;
use crate::ansi::esc_free;
use crate::ansi::strip_ansi;

verus! {

#[verifier::external_type_specification]
#[verifier::external_body]
pub struct ExSyntaxSet(syntect::parsing::SyntaxSet);

#[verifier::external_type_specification]
#[verifier::external_body]
pub struct ExParseState(syntect::parsing::ParseState);

#[verifier::external_type_specification]
#[verifier::external_body]
pub struct ExTheme(syntect::highlighting::Theme);

#[verifier::external_type_specification]
#[verifier::external_body]
pub struct ExHighlightState(syntect::highlighting::HighlightState);

/// What the engine emits for one line: the terminal-escaped coloring of
/// `line` under the grammar picked for `grammar` (the plain-text grammar
/// when no grammar matches the tag), after the lines in `prior` have been
/// fed to the same engine state in order. A function of these three values
/// alone: the engine's syntax and theme tables are fixed.
pub uninterp spec fn escaped_line(grammar: Seq<char>, prior: Seq<Seq<char>>, line: Seq<char>) -> Seq<
    char,
>;

/// Carried highlighter state for one cell: the grammar tables, the theme,
/// and the engine's lexical state after the lines fed so far.
pub struct LineHighlighter {
    syntaxes: syntect::parsing::SyntaxSet,
    theme: syntect::highlighting::Theme,
    parse: syntect::parsing::ParseState,
    state: syntect::highlighting::HighlightState,
    grammar_tag: Ghost<Seq<char>>,
    fed: Ghost<Seq<Seq<char>>>,
}

fn ghost_tag_of(s: &str) -> (g: Ghost<Seq<char>>)
    ensures
        g@ == s@,
{
    Ghost(s@)
}

fn ghost_no_lines() -> (g: Ghost<Seq<Seq<char>>>)
    ensures
        g@ == Seq::<Seq<char>>::empty(),
{
    Ghost(Seq::empty())
}

fn ghost_fed_push(g: Ghost<Seq<Seq<char>>>, line: &str) -> (r: Ghost<Seq<Seq<char>>>)
    ensures
        r@ == g@.push(line@),
{
    Ghost(g@.push(line@))
}

impl LineHighlighter {
    /// The grammar tag this state was created for.
    pub closed spec fn grammar(&self) -> Seq<char> {
        self.grammar_tag@
    }

    /// The source lines fed to this state so far, in order.
    pub closed spec fn consumed(&self) -> Seq<Seq<char>> {
        self.fed@
    }

    /// Relies on syntect's compiled-in defaults: `SyntaxSet::
    /// load_defaults_newlines`, `ThemeSet::load_defaults` (theme
    /// "InspiredGitHub"), `find_syntax_by_extension` with
    /// `find_syntax_plain_text` as the fallback when the tag matches no
    /// grammar, `ParseState::new` and `HighlightState::new`. Total: an
    /// unresolvable tag degrades to the plain-text grammar, never an error.
    #[verifier::external_body]
    pub fn new_for_grammar(tag: &str) -> (h: LineHighlighter)
        ensures
            h.grammar() == tag@,
            h.consumed() == Seq::<Seq<char>>::empty(),
    {
        let syntaxes = syntect::parsing::SyntaxSet::load_defaults_newlines();
        let themes = syntect::highlighting::ThemeSet::load_defaults();
        let theme = themes.themes.get("InspiredGitHub").cloned().unwrap_or_default();
        let syntax = match syntaxes.find_syntax_by_extension(tag) {
            Some(s) => s,
            None => syntaxes.find_syntax_plain_text(),
        };
        let parse = syntect::parsing::ParseState::new(syntax);
        let highlighter = syntect::highlighting::Highlighter::new(&theme);
        let stack = syntect::parsing::ScopeStack::new();
        let state = syntect::highlighting::HighlightState::new(&highlighter, stack);
        LineHighlighter { syntaxes, theme, parse, state, grammar_tag: ghost_tag_of(tag), fed: ghost_no_lines() }
    }

    /// Relies on syntect's `ParseState::parse_line`, `HighlightIterator`
    /// and `as_24_bit_terminal_escaped`: colors one line with the state
    /// carried from the lines already fed, and advances that state. A line
    /// the parser rejects is returned as it is rather than aborting the
    /// cell. Deterministic: the result is named by [`escaped_line`] over
    /// the grammar tag, the prior lines and the line. Coloring only
    /// interleaves complete `ESC [ .. m` runs with the line's own text:
    /// `HighlightIterator` documents that its token strings concatenate to
    /// the input line, and the escape writer emits one such run before
    /// each token, so for an escape-free line stripping those runs from
    /// the result recovers the line exactly (also on the rejected-line
    /// path, which returns the line itself).
    #[verifier::external_body]
    pub fn next_line(&mut self, line: &str) -> (r: String)
        ensures
            final(self).grammar() == old(self).grammar(),
            final(self).consumed() == old(self).consumed().push(line@),
            r@ == escaped_line(old(self).grammar(), old(self).consumed(), line@),
            esc_free(line@) ==> strip_ansi(r@) == line@,
    {
        self.fed = ghost_fed_push(self.fed, line);
        let ops = match self.parse.parse_line(line, &self.syntaxes) {
            Ok(ops) => ops,
            Err(_) => return line.to_string(),
        };
        let highlighter = syntect::highlighting::Highlighter::new(&self.theme);
        let iter = syntect::highlighting::HighlightIterator::new(&mut self.state, &ops[..], line, &highlighter);
        let regions: Vec<(syntect::highlighting::Style, &str)> = iter.collect();
        syntect::util::as_24_bit_terminal_escaped(&regions[..], false)
    }
}

} // verus!
