//! Lexical highlighting of the canonical text: each line becomes an
//! ordered sequence of styled fragments. The tokenizing itself is done
//! by an outside highlighting engine behind one trusted wrapper; its
//! output is named, so every contract downstream is exact up to that
//! name.

use vstd::prelude::*;
use crate::style::Fragment;
use crate::style::Style;
use crate::style::cache_model;
use crate::style::frags_text;
use crate::text::line_count;
use crate::text::split_lines;
use syntect::easy::HighlightLines;
use syntect::highlighting::ThemeSet;
use syntect::parsing::SyntaxSet;
use syntect::util::LinesWithEndings;

verus! {

/// Lexical highlighting failed: the grammar, the theme, or the
/// tokenizer itself was unavailable for the text.
#[derive(Clone, Copy, Debug, PartialEq, Eq, Structural)]
pub struct HighlightError;

/// The styled lines the YAML highlighter produces for a text: one line
/// of (style, fragment) pairs per line of the text. A function of the
/// text alone.
pub uninterp spec fn yaml_styles_of(text: Seq<char>) -> Seq<Seq<(Style, Seq<char>)>>;

/// Whether the YAML highlighter accepts a text. Like the styles, this
/// depends on the text alone: the grammar and theme are bundled, and
/// the tokenizer is deterministic.
pub uninterp spec fn yaml_ok_of(text: Seq<char>) -> bool;

/// Relies on syntect: `HighlightLines::highlight_line` with the bundled
/// default YAML grammar and the bundled `Solarized (dark)` theme, called
/// once per line of `LinesWithEndings`, which yields one piece per
/// newline plus a trailing piece for a nonempty remainder; whether it
/// succeeds, and the styles it produces, depend on the text alone.
/// `highlight_line` returns the line's contiguous styled subslices in
/// order, so each row's fragment texts concatenate to its line of the
/// text, ending included: highlighting restyles but never alters,
/// drops or reorders text.
#[verifier::external_body]
pub(crate) fn highlight_yaml(text: &str) -> (r: Result<Vec<Vec<Fragment>>, HighlightError>)
    ensures
        r is Ok <==> yaml_ok_of(text@),
        r matches Ok(v) ==> cache_model(v@) == yaml_styles_of(text@) && v@.len() == line_count(
            text@,
        ),
        r matches Ok(v) ==> forall|i: int|
            0 <= i < v@.len() ==> frags_text(#[trigger] cache_model(v@)[i]) == split_lines(
                text@,
            )[i],
{
    let ss = SyntaxSet::load_defaults_newlines();
    let ts = ThemeSet::load_defaults();
    let syn = ss.find_syntax_by_extension("yaml").ok_or(HighlightError)?;
    let theme = ts.themes.get("Solarized (dark)").ok_or(HighlightError)?;
    let mut hl = HighlightLines::new(syn, theme);
    let mut out: Vec<Vec<Fragment>> = Vec::new();
    for line in LinesWithEndings::from(text) {
        let segs = hl.highlight_line(line, &ss).map_err(|_| HighlightError)?;
        out.push(segs.into_iter().map(|(st, tx)| Fragment { style: Style::from_rgb_bits(st.foreground.r, st.foreground.g, st.foreground.b, st.font_style.bits()), text: tx.to_string() }).collect());
    }
    Ok(out)
}

} // verus!
