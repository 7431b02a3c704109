//! Inline renderer for a lightweight ASCII math notation.
//!
//! The engine scans an input string left to right and substitutes Unicode
//! codepoints for recognized constructs: styled letter runs, fractions,
//! symbol keywords, bracketed groups and tone-capable emoji. It is total:
//! malformed input degrades to literal pass-through, never an error.

use vstd::prelude::*;
use vstd::string::StrSliceExecFns;

mod bracket;
mod emoji;
mod engine;
mod fraction;
mod keywords;
mod style;

pub use bracket::lemma_wrap_strip_of_wrapped;
pub use bracket::spec_wrap;
pub use bracket::wrap_group;
pub use emoji::lemma_tone_ignored_on_non_capable;
pub use emoji::resolve_tone;
pub use emoji::spec_resolve_tone;
pub use emoji::spec_tone_capable;
pub use emoji::spec_tone_modifier;
pub use emoji::tone_capable;
pub use engine::Config;
pub use engine::GFrame;
pub use engine::GState;
pub use engine::all_digits;
pub use engine::cfg_of;
pub use engine::convert_chars;
pub use engine::delim_pair;
pub use engine::is_close_delim;
pub use engine::is_letter;
pub use engine::is_open_delim;
pub use engine::keyword_free;
pub use engine::lemma_round_trip;
pub use engine::lemma_tone_immaterial;
pub use engine::lemma_unterminated_bracket;
pub use engine::lemma_unterminated_fraction;
pub use engine::lemma_unwind_flat;
pub use engine::marker_free;
pub use engine::plain_cfg;
pub use engine::rt_inv;
pub use engine::spec_convert;
pub use engine::spec_finish;
pub use engine::spec_flat;
pub use engine::spec_flush;
pub use engine::spec_init;
pub use engine::spec_run;
pub use engine::spec_step;
pub use engine::spec_unwind;
pub use engine::stack_flat;
pub use fraction::format_fraction;
pub use fraction::is_digit_char;
pub use fraction::is_digit_seq;
pub use fraction::spec_format;
pub use fraction::spec_sub_digit;
pub use fraction::spec_sub_seq;
pub use fraction::spec_sup_digit;
pub use fraction::spec_sup_seq;
pub use fraction::spec_vulgar;
pub use fraction::spec_vulgar_pair;
pub use keywords::any_kw_at;
pub use keywords::lemma_kw_in_subrange;
pub use keywords::lemma_no_kw_at_digit;
pub use keywords::lemma_render_word_from_id;
pub use keywords::lemma_render_word_from_one_to_one;
pub use keywords::lemma_render_word_one_to_one;
pub use keywords::lemma_render_word_plain_id;
pub use keywords::marker_style;
pub use keywords::render_word;
pub use keywords::spec_marker_style;
pub use keywords::spec_render_word;
pub use keywords::spec_render_word_from;
pub use style::Style;
pub use style::lemma_style_map_deterministic;
pub use style::spec_style_map;
pub use style::style_map;

verus! {

/// Skin tone selector for tone-capable emoji.
///
/// `Default` appends no modifier; the five others each select one Unicode
/// skin tone modifier codepoint.
#[derive(Clone, Copy, PartialEq, Eq, Structural, Debug)]
pub enum Tone {
    /// No modifier is appended.
    Default,
    /// Light skin tone modifier.
    Light,
    /// Medium-light skin tone modifier.
    MediumLight,
    /// Medium skin tone modifier.
    Medium,
    /// Medium-dark skin tone modifier.
    MediumDark,
    /// Dark skin tone modifier.
    Dark,
}

/// Relies on `String` being built from an iterator of `char`: collecting a
/// vector's characters yields the string whose characters they are, in
/// order.
#[verifier::external_body]
fn chars_to_string(v: Vec<char>) -> (s: String)
    ensures
        s@ == v@,
{
    v.into_iter().collect()
}

/// Render an input string under the four options and collect the result.
///
/// This is the single entry point: it scans `inp` left to right over its
/// Unicode scalar values and emits the substitution the configuration
/// selects for each recognized construct, passing everything else through.
/// It accepts arbitrary text, the empty string included, and never fails.
#[must_use]
pub fn convert(
    inp: &str,
    strip_brackets: bool,
    vulgar_fracs: bool,
    script_fracs: bool,
    skin_tone: Tone,
) -> (out: String)
    ensures
        out@ == spec_convert(inp@, cfg_of(strip_brackets, vulgar_fracs, script_fracs, skin_tone)),
{
    let cfg = Config { strip_brackets, vulgar_fracs, script_fracs, skin_tone };
    let n: usize = inp.unicode_len();
    let mut v: Vec<char> = Vec::new();
    let mut i: usize = 0;
    while i < n
        invariant
            i <= n,
            n as nat == inp@.len(),
            v@ == inp@.subrange(0, i as int),
        decreases n - i,
    {
        v.push(inp.get_char(i));
        i += 1;
        assert(v@ =~= inp@.subrange(0, i as int));
    }
    assert(v@ =~= inp@);
    let r = convert_chars(&v, cfg);
    chars_to_string(r)
}

} // verus!
