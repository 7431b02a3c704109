//! Emoji tone resolver: append the selected skin tone modifier to emoji
//! that support tone variation; pass every other emoji through unchanged.

use vstd::prelude::*;
use crate::Tone;

verus! {

/// Whether an emoji base character takes a skin tone modifier. This is a
/// closed allow-list of tone-capable hand and gesture emoji.
pub open spec fn spec_tone_capable(c: char) -> bool {
    match c {
        '\u{261D}' => true,  // index pointing up
        '\u{270A}' => true,  // raised fist
        '\u{270B}' => true,  // raised hand
        '\u{270C}' => true,  // victory hand
        '\u{1F44A}' => true,  // oncoming fist
        '\u{1F44B}' => true,  // waving hand
        '\u{1F44C}' => true,  // OK hand
        '\u{1F44D}' => true,  // thumbs up
        '\u{1F44E}' => true,  // thumbs down
        '\u{1F44F}' => true,  // clapping hands
        '\u{1F590}' => true,  // hand with fingers splayed
        '\u{1F64C}' => true,  // raising hands
        '\u{1F64F}' => true,  // folded hands
        _ => false,
    }
}

/// The Unicode skin tone modifier a tone selects, or none for `Default`.
pub open spec fn spec_tone_modifier(t: Tone) -> Option<char> {
    match t {
        Tone::Default => None,
        Tone::Light => Some('\u{1F3FB}'),
        Tone::MediumLight => Some('\u{1F3FC}'),
        Tone::Medium => Some('\u{1F3FD}'),
        Tone::MediumDark => Some('\u{1F3FE}'),
        Tone::Dark => Some('\u{1F3FF}'),
    }
}

/// What the tone resolver emits for an emoji base character: the base
/// followed by the selected modifier when the base is tone-capable and the
/// tone selects one, else the base alone.
pub open spec fn spec_resolve_tone(base: char, t: Tone) -> Seq<char> {
    if spec_tone_capable(base) && spec_tone_modifier(t) is Some {
        seq![base, spec_tone_modifier(t)->Some_0]
    } else {
        seq![base]
    }
}

/// Whether an emoji base character takes a skin tone modifier.
pub fn tone_capable(c: char) -> (r: bool)
    ensures
        r == spec_tone_capable(c),
{
    match c {
        '\u{261D}' => true,
        '\u{270A}' => true,
        '\u{270B}' => true,
        '\u{270C}' => true,
        '\u{1F44A}' => true,
        '\u{1F44B}' => true,
        '\u{1F44C}' => true,
        '\u{1F44D}' => true,
        '\u{1F44E}' => true,
        '\u{1F44F}' => true,
        '\u{1F590}' => true,
        '\u{1F64C}' => true,
        '\u{1F64F}' => true,
        _ => false,
    }
}

/// Append the selected skin tone modifier to a tone-capable emoji base.
///
/// A base outside the tone-capable allow-list ignores the tone silently and
/// passes through unchanged; so does every base when the tone is
/// `Tone::Default`, which selects no modifier.
pub fn resolve_tone(base: char, t: Tone) -> (out: Vec<char>)
    ensures
        out@ == spec_resolve_tone(base, t),
{
    let mut out: Vec<char> = Vec::new();
    out.push(base);
    if tone_capable(base) {
        match t {
            Tone::Default => (),
            Tone::Light => out.push('\u{1F3FB}'),
            Tone::MediumLight => out.push('\u{1F3FC}'),
            Tone::Medium => out.push('\u{1F3FD}'),
            Tone::MediumDark => out.push('\u{1F3FE}'),
            Tone::Dark => out.push('\u{1F3FF}'),
        }
    }
    assert(out@ =~= spec_resolve_tone(base, t));
    out
}

/// Selecting any tone for an emoji with no tone variants leaves the output
/// identical to selecting the default tone.
pub proof fn lemma_tone_ignored_on_non_capable(base: char, t: Tone)
    requires
        !spec_tone_capable(base),
    ensures
        spec_resolve_tone(base, t) == spec_resolve_tone(base, Tone::Default),
{
}

} // verus!
