//! Tests of the individual components: style mapper, fraction formatter,
//! bracket policy, emoji tone resolver and word renderer.

use asciimath_inline::format_fraction;
use asciimath_inline::marker_style;
use asciimath_inline::render_word;
use asciimath_inline::resolve_tone;
use asciimath_inline::style_map;
use asciimath_inline::tone_capable;
use asciimath_inline::wrap_group;
use asciimath_inline::Style;
use asciimath_inline::Tone;

#[test]
fn style_map_bold_tables() {
    assert_eq!(style_map(Style::Bold, 'A'), '\u{1D400}');
    assert_eq!(style_map(Style::Bold, 'Z'), '\u{1D419}');
    assert_eq!(style_map(Style::Bold, 'a'), '\u{1D41A}');
    assert_eq!(style_map(Style::Bold, 'z'), '\u{1D433}');
    assert_eq!(style_map(Style::Bold, '0'), '\u{1D7CE}');
    assert_eq!(style_map(Style::Bold, '9'), '\u{1D7D7}');
}

#[test]
fn style_map_letterlike_exceptions() {
    // Unicode covers these pairs outside the main alphanumeric block.
    assert_eq!(style_map(Style::Italic, 'h'), '\u{210E}');
    assert_eq!(style_map(Style::Script, 'B'), '\u{212C}');
    assert_eq!(style_map(Style::Script, 'e'), '\u{212F}');
    assert_eq!(style_map(Style::Script, 'o'), '\u{2134}');
    assert_eq!(style_map(Style::Fraktur, 'Z'), '\u{2128}');
    assert_eq!(style_map(Style::DoubleStruck, 'N'), '\u{2115}');
    assert_eq!(style_map(Style::DoubleStruck, 'Q'), '\u{211A}');
}

#[test]
fn style_map_fallback_to_plain() {
    // No italic digits exist in Unicode: the digit passes through.
    assert_eq!(style_map(Style::Italic, '7'), '7');
    assert_eq!(style_map(Style::Script, '3'), '3');
    // Characters outside the tables are untouched in every style.
    assert_eq!(style_map(Style::Bold, '+'), '+');
    assert_eq!(style_map(Style::Monospace, '\u{3C0}'), '\u{3C0}');
}

#[test]
fn style_map_plain_is_identity() {
    for c in ['a', 'Q', '5', '!', ' '] {
        assert_eq!(style_map(Style::Plain, c), c);
    }
}

#[test]
fn style_map_is_deterministic() {
    for c in ['a', 'M', '0', '#'] {
        assert_eq!(style_map(Style::Fraktur, c), style_map(Style::Fraktur, c));
    }
}

#[test]
fn format_fraction_precedence() {
    // The precomposed glyph wins over the script form when both apply.
    let out = format_fraction(&vec!['1'], &vec!['2'], true, true);
    assert_eq!(out, vec!['\u{BD}']);
}

#[test]
fn format_fraction_script_composition() {
    let out = format_fraction(&vec!['1', '7'], &vec!['2', '3'], true, true);
    assert_eq!(out, vec!['\u{B9}', '\u{2077}', '\u{2044}', '\u{2082}', '\u{2083}']);
}

#[test]
fn format_fraction_plain_fallback() {
    let out = format_fraction(&vec!['1', '7'], &vec!['2', '3'], false, false);
    assert_eq!(out, vec!['1', '7', '/', '2', '3']);
}

#[test]
fn format_fraction_non_digit_content_stays_plain() {
    // Non-digit content is never eligible for either substitution.
    let out = format_fraction(&vec!['q'], &vec!['2'], true, true);
    assert_eq!(out, vec!['q', '/', '2']);
}

#[test]
fn wrap_group_keeps_or_strips_delimiters() {
    let inner = vec!['a', 'b'];
    assert_eq!(wrap_group('(', ')', &inner, false), vec!['(', 'a', 'b', ')']);
    assert_eq!(wrap_group('(', ')', &inner, true), vec!['a', 'b']);
}

#[test]
fn wrap_group_strip_of_wrapped_is_wrapped() {
    // Stripping what was wrapped with the delimiters kept changes nothing.
    let inner = vec!['x'];
    let kept = wrap_group('[', ']', &inner, false);
    assert_eq!(wrap_group('[', ']', &kept, true), kept);
}

#[test]
fn resolve_tone_appends_modifier() {
    assert_eq!(resolve_tone('\u{1F44D}', Tone::Medium), vec!['\u{1F44D}', '\u{1F3FD}']);
    assert_eq!(resolve_tone('\u{270C}', Tone::Dark), vec!['\u{270C}', '\u{1F3FF}']);
    assert_eq!(resolve_tone('\u{1F44D}', Tone::Default), vec!['\u{1F44D}']);
}

#[test]
fn resolve_tone_ignores_non_capable_base() {
    assert!(tone_capable('\u{1F44D}'));
    assert!(!tone_capable('\u{1F600}'));
    assert_eq!(resolve_tone('\u{1F600}', Tone::Dark), vec!['\u{1F600}']);
    assert_eq!(
        resolve_tone('\u{1F600}', Tone::Dark),
        resolve_tone('\u{1F600}', Tone::Default)
    );
}

#[test]
fn render_word_maps_keywords_and_letters() {
    let out = render_word(&vec!['p', 'i', 'x'], Style::Italic);
    assert_eq!(out, vec!['\u{3C0}', '\u{1D465}']);
    let out = render_word(&vec!['n', 'o', 't', 'i', 'n'], Style::Plain);
    assert_eq!(out, vec!['\u{2209}']);
}

#[test]
fn render_word_one_output_per_plain_character() {
    // Without keywords, each character maps to exactly one character.
    let inp = vec!['q', 'w', '9'];
    let out = render_word(&inp, Style::SansSerif);
    assert_eq!(out.len(), inp.len());
    assert_eq!(out, vec!['\u{1D5CA}', '\u{1D5D0}', '\u{1D7EB}']);
}

#[test]
fn marker_style_recognizes_each_marker() {
    assert_eq!(marker_style(&vec!['b', 'o', 'l', 'd']), Some(Style::Bold));
    assert_eq!(marker_style(&vec!['p', 'l', 'a', 'i', 'n']), Some(Style::Plain));
    assert_eq!(marker_style(&vec!['m', 'o', 'n', 'o']), Some(Style::Monospace));
    assert_eq!(marker_style(&vec!['b', 'o', 'l', 'd', 'x']), None);
    assert_eq!(marker_style(&vec![]), None);
}
