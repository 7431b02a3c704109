//! End-to-end tests of the inline renderer's entry point.

use asciimath_inline::convert;
use asciimath_inline::Tone;

#[test]
fn empty_input() {
    assert_eq!(convert("", false, false, false, Tone::Default), "");
    assert_eq!(convert("", true, true, true, Tone::Dark), "");
}

#[test]
fn round_trip_plain_text() {
    let cases = ["kj qw 42", "3 + 7 = 9?", "(kj) [z] {8}", "1/2 kj 17/23", "q/4", "3/"];
    for s in cases {
        assert_eq!(convert(s, false, false, false, Tone::Default), s);
    }
}

#[test]
fn round_trip_unterminated_constructs() {
    let cases = ["(kj", "[1/2", "17/", "5/ ", "((", ")]", "(q]"];
    for s in cases {
        assert_eq!(convert(s, false, false, false, Tone::Default), s);
    }
}

#[test]
fn vulgar_fraction_preferred() {
    assert_eq!(convert("1/2", false, true, true, Tone::Default), "\u{BD}");
    assert_eq!(convert("1/2", false, true, false, Tone::Default), "\u{BD}");
    assert_eq!(convert("3/4", false, true, false, Tone::Default), "\u{BE}");
    assert_eq!(convert("1/10", false, true, false, Tone::Default), "\u{2152}");
}

#[test]
fn script_fraction_fallback() {
    // 17/23 has no precomposed glyph: superscripts, U+2044, subscripts.
    assert_eq!(
        convert("17/23", false, true, true, Tone::Default),
        "\u{B9}\u{2077}\u{2044}\u{2082}\u{2083}"
    );
    // With vulgar fractions off, even 1/2 takes the script form.
    assert_eq!(convert("1/2", false, false, true, Tone::Default), "\u{B9}\u{2044}\u{2082}");
}

#[test]
fn plain_fraction_when_flags_off() {
    assert_eq!(convert("1/2", false, false, false, Tone::Default), "1/2");
    assert_eq!(convert("17/23", false, false, false, Tone::Default), "17/23");
}

#[test]
fn fraction_missing_denominator_degrades() {
    assert_eq!(convert("1/", false, true, true, Tone::Default), "1/");
    assert_eq!(convert("1/q", false, true, true, Tone::Default), "1/q");
}

#[test]
fn bracket_stripping_around_styled_group() {
    // The bracket policy drops the delimiters; the group's rendered
    // content (a space and a bold x) stays.
    assert_eq!(
        convert("(bold x)", true, false, false, Tone::Default),
        " \u{1D431}"
    );
    assert_eq!(
        convert("(bold x)", false, false, false, Tone::Default),
        "( \u{1D431})"
    );
}

#[test]
fn bracket_stripping_is_per_group() {
    assert_eq!(convert("{[1/2]}", true, true, false, Tone::Default), "\u{BD}");
    assert_eq!(convert("{[1/2]}", false, true, false, Tone::Default), "{[\u{BD}]}");
}

#[test]
fn unmatched_brackets_stay_literal() {
    assert_eq!(convert("(q", true, false, false, Tone::Default), "(q");
    assert_eq!(convert("q)", true, false, false, Tone::Default), "q)");
    assert_eq!(convert("(q]", true, false, false, Tone::Default), "(q]");
}

#[test]
fn style_marker_scopes_to_group() {
    // The marker styles the rest of its group; the style outside resumes.
    assert_eq!(
        convert("(bold x) y", true, false, false, Tone::Default),
        " \u{1D431} y"
    );
    assert_eq!(
        convert("bold x y", false, false, false, Tone::Default),
        " \u{1D431} \u{1D432}"
    );
}

#[test]
fn style_markers_select_each_style() {
    assert_eq!(convert("italic h", true, false, false, Tone::Default), " \u{210E}");
    assert_eq!(convert("script B", true, false, false, Tone::Default), " \u{212C}");
    assert_eq!(convert("fraktur C", true, false, false, Tone::Default), " \u{212D}");
    assert_eq!(convert("double R", true, false, false, Tone::Default), " \u{211D}");
    assert_eq!(convert("mono 7", true, false, false, Tone::Default), " \u{1D7FD}");
    assert_eq!(convert("sans z", true, false, false, Tone::Default), " \u{1D5D3}");
    // Digits with no styled codepoint in the chosen style stay plain.
    assert_eq!(convert("italic 7", true, false, false, Tone::Default), " 7");
}

#[test]
fn symbol_keywords_substitute() {
    assert_eq!(convert("pi", false, false, false, Tone::Default), "\u{3C0}");
    assert_eq!(convert("alpha beta", false, false, false, Tone::Default), "\u{3B1} \u{3B2}");
    assert_eq!(convert("sqrt", false, false, false, Tone::Default), "\u{221A}");
    assert_eq!(convert("oo", false, false, false, Tone::Default), "\u{221E}");
}

#[test]
fn longest_keyword_wins() {
    // `notin` is not shadowed by its prefix `not`, nor `sube` by `sub`,
    // nor `int` by `in`.
    assert_eq!(convert("notin", false, false, false, Tone::Default), "\u{2209}");
    assert_eq!(convert("not", false, false, false, Tone::Default), "\u{AC}");
    assert_eq!(convert("sube", false, false, false, Tone::Default), "\u{2286}");
    assert_eq!(convert("sub", false, false, false, Tone::Default), "\u{2282}");
    assert_eq!(convert("int", false, false, false, Tone::Default), "\u{222B}");
    assert_eq!(convert("in", false, false, false, Tone::Default), "\u{2208}");
}

#[test]
fn keywords_chain_within_a_run() {
    assert_eq!(convert("pisqrt", false, false, false, Tone::Default), "\u{3C0}\u{221A}");
}

#[test]
fn emoji_tone_applied_to_capable_base() {
    assert_eq!(
        convert("\u{1F44D}", false, false, false, Tone::Dark),
        "\u{1F44D}\u{1F3FF}"
    );
    assert_eq!(
        convert("\u{1F44B}", false, false, false, Tone::Light),
        "\u{1F44B}\u{1F3FB}"
    );
    assert_eq!(
        convert("\u{1F44D}", false, false, false, Tone::Default),
        "\u{1F44D}"
    );
}

#[test]
fn emoji_tone_ignored_on_non_capable_base() {
    // A tone-less emoji renders the same under Dark and Default.
    assert_eq!(
        convert("\u{1F600}", false, false, false, Tone::Dark),
        convert("\u{1F600}", false, false, false, Tone::Default)
    );
    assert_eq!(convert("\u{1F600}", false, false, false, Tone::Dark), "\u{1F600}");
}

#[test]
fn unrecognized_characters_pass_through() {
    assert_eq!(convert("?!@ #,", false, false, false, Tone::Default), "?!@ #,");
}

#[test]
fn symbol_table_coverage() {
    let cases = [
        ("gamma", "\u{3B3}"),
        ("delta", "\u{3B4}"),
        ("theta", "\u{3B8}"),
        ("lambda", "\u{3BB}"),
        ("mu", "\u{3BC}"),
        ("sigma", "\u{3C3}"),
        ("phi", "\u{3C6}"),
        ("omega", "\u{3C9}"),
        ("forall", "\u{2200}"),
        ("exists", "\u{2203}"),
        ("emptyset", "\u{2205}"),
        ("sum", "\u{2211}"),
        ("prod", "\u{220F}"),
        ("xx", "\u{D7}"),
        ("pm", "\u{B1}"),
        ("cap", "\u{2229}"),
        ("cup", "\u{222A}"),
        ("to", "\u{2192}"),
        ("implies", "\u{21D2}"),
        ("iff", "\u{21D4}"),
        ("ne", "\u{2260}"),
        ("le", "\u{2264}"),
        ("ge", "\u{2265}"),
        ("and", "\u{2227}"),
        ("or", "\u{2228}"),
    ];
    for (kw, sym) in cases {
        assert_eq!(convert(kw, false, false, false, Tone::Default), sym);
    }
}

#[test]
fn deeply_nested_groups() {
    assert_eq!(convert("((((((q))))))", true, false, false, Tone::Default), "q");
    assert_eq!(
        convert("((((((q))))))", false, false, false, Tone::Default),
        "((((((q))))))"
    );
    assert_eq!(convert("((((((q", true, false, false, Tone::Default), "((((((q");
}

#[test]
fn emoji_tone_inside_groups() {
    assert_eq!(
        convert("(\u{1F44F})", true, false, false, Tone::MediumDark),
        "\u{1F44F}\u{1F3FE}"
    );
}

#[test]
fn unterminated_constructs_under_all_flags() {
    // Mid-construct endings pass through whatever the configuration says.
    assert_eq!(convert("23/", true, true, true, Tone::Dark), "23/");
    assert_eq!(convert("[17", true, true, true, Tone::Dark), "[17");
    assert_eq!(convert("{", true, true, true, Tone::Dark), "{");
}
