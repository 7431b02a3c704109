//! Style mapper: the Unicode mathematical alphanumeric variant of each
//! ASCII letter or digit, per style, with fallback to the plain character
//! where Unicode has no styled codepoint for the pair.

use vstd::prelude::*;

verus! {

/// A letter/digit rendering style, each backed by a static table from
/// ASCII letters and digits to their styled Unicode codepoints.
#[derive(Clone, Copy, PartialEq, Eq, Structural, Debug)]
pub enum Style {
    /// The input character itself.
    Plain,
    /// Mathematical bold.
    Bold,
    /// Mathematical italic.
    Italic,
    /// Mathematical bold italic.
    BoldItalic,
    /// Mathematical script.
    Script,
    /// Mathematical fraktur.
    Fraktur,
    /// Mathematical double-struck.
    DoubleStruck,
    /// Mathematical sans-serif.
    SansSerif,
    /// Mathematical monospace.
    Monospace,
}

/// The Bold variant of an ASCII letter or digit, or the character
/// itself where the style has no codepoint for it.
pub open spec fn spec_bold_char(c: char) -> char {
    match c {
        'A' => '\u{1D400}',
        'B' => '\u{1D401}',
        'C' => '\u{1D402}',
        'D' => '\u{1D403}',
        'E' => '\u{1D404}',
        'F' => '\u{1D405}',
        'G' => '\u{1D406}',
        'H' => '\u{1D407}',
        'I' => '\u{1D408}',
        'J' => '\u{1D409}',
        'K' => '\u{1D40A}',
        'L' => '\u{1D40B}',
        'M' => '\u{1D40C}',
        'N' => '\u{1D40D}',
        'O' => '\u{1D40E}',
        'P' => '\u{1D40F}',
        'Q' => '\u{1D410}',
        'R' => '\u{1D411}',
        'S' => '\u{1D412}',
        'T' => '\u{1D413}',
        'U' => '\u{1D414}',
        'V' => '\u{1D415}',
        'W' => '\u{1D416}',
        'X' => '\u{1D417}',
        'Y' => '\u{1D418}',
        'Z' => '\u{1D419}',
        'a' => '\u{1D41A}',
        'b' => '\u{1D41B}',
        'c' => '\u{1D41C}',
        'd' => '\u{1D41D}',
        'e' => '\u{1D41E}',
        'f' => '\u{1D41F}',
        'g' => '\u{1D420}',
        'h' => '\u{1D421}',
        'i' => '\u{1D422}',
        'j' => '\u{1D423}',
        'k' => '\u{1D424}',
        'l' => '\u{1D425}',
        'm' => '\u{1D426}',
        'n' => '\u{1D427}',
        'o' => '\u{1D428}',
        'p' => '\u{1D429}',
        'q' => '\u{1D42A}',
        'r' => '\u{1D42B}',
        's' => '\u{1D42C}',
        't' => '\u{1D42D}',
        'u' => '\u{1D42E}',
        'v' => '\u{1D42F}',
        'w' => '\u{1D430}',
        'x' => '\u{1D431}',
        'y' => '\u{1D432}',
        'z' => '\u{1D433}',
        '0' => '\u{1D7CE}',
        '1' => '\u{1D7CF}',
        '2' => '\u{1D7D0}',
        '3' => '\u{1D7D1}',
        '4' => '\u{1D7D2}',
        '5' => '\u{1D7D3}',
        '6' => '\u{1D7D4}',
        '7' => '\u{1D7D5}',
        '8' => '\u{1D7D6}',
        '9' => '\u{1D7D7}',
        _ => c,
    }
}

fn bold_char(c: char) -> (r: char)
    ensures
        r == spec_bold_char(c),
{
    match c {
        'A' => '\u{1D400}',
        'B' => '\u{1D401}',
        'C' => '\u{1D402}',
        'D' => '\u{1D403}',
        'E' => '\u{1D404}',
        'F' => '\u{1D405}',
        'G' => '\u{1D406}',
        'H' => '\u{1D407}',
        'I' => '\u{1D408}',
        'J' => '\u{1D409}',
        'K' => '\u{1D40A}',
        'L' => '\u{1D40B}',
        'M' => '\u{1D40C}',
        'N' => '\u{1D40D}',
        'O' => '\u{1D40E}',
        'P' => '\u{1D40F}',
        'Q' => '\u{1D410}',
        'R' => '\u{1D411}',
        'S' => '\u{1D412}',
        'T' => '\u{1D413}',
        'U' => '\u{1D414}',
        'V' => '\u{1D415}',
        'W' => '\u{1D416}',
        'X' => '\u{1D417}',
        'Y' => '\u{1D418}',
        'Z' => '\u{1D419}',
        'a' => '\u{1D41A}',
        'b' => '\u{1D41B}',
        'c' => '\u{1D41C}',
        'd' => '\u{1D41D}',
        'e' => '\u{1D41E}',
        'f' => '\u{1D41F}',
        'g' => '\u{1D420}',
        'h' => '\u{1D421}',
        'i' => '\u{1D422}',
        'j' => '\u{1D423}',
        'k' => '\u{1D424}',
        'l' => '\u{1D425}',
        'm' => '\u{1D426}',
        'n' => '\u{1D427}',
        'o' => '\u{1D428}',
        'p' => '\u{1D429}',
        'q' => '\u{1D42A}',
        'r' => '\u{1D42B}',
        's' => '\u{1D42C}',
        't' => '\u{1D42D}',
        'u' => '\u{1D42E}',
        'v' => '\u{1D42F}',
        'w' => '\u{1D430}',
        'x' => '\u{1D431}',
        'y' => '\u{1D432}',
        'z' => '\u{1D433}',
        '0' => '\u{1D7CE}',
        '1' => '\u{1D7CF}',
        '2' => '\u{1D7D0}',
        '3' => '\u{1D7D1}',
        '4' => '\u{1D7D2}',
        '5' => '\u{1D7D3}',
        '6' => '\u{1D7D4}',
        '7' => '\u{1D7D5}',
        '8' => '\u{1D7D6}',
        '9' => '\u{1D7D7}',
        _ => c,
    }
}

/// The Italic variant of an ASCII letter or digit, or the character
/// itself where the style has no codepoint for it.
pub open spec fn spec_italic_char(c: char) -> char {
    match c {
        'A' => '\u{1D434}',
        'B' => '\u{1D435}',
        'C' => '\u{1D436}',
        'D' => '\u{1D437}',
        'E' => '\u{1D438}',
        'F' => '\u{1D439}',
        'G' => '\u{1D43A}',
        'H' => '\u{1D43B}',
        'I' => '\u{1D43C}',
        'J' => '\u{1D43D}',
        'K' => '\u{1D43E}',
        'L' => '\u{1D43F}',
        'M' => '\u{1D440}',
        'N' => '\u{1D441}',
        'O' => '\u{1D442}',
        'P' => '\u{1D443}',
        'Q' => '\u{1D444}',
        'R' => '\u{1D445}',
        'S' => '\u{1D446}',
        'T' => '\u{1D447}',
        'U' => '\u{1D448}',
        'V' => '\u{1D449}',
        'W' => '\u{1D44A}',
        'X' => '\u{1D44B}',
        'Y' => '\u{1D44C}',
        'Z' => '\u{1D44D}',
        'a' => '\u{1D44E}',
        'b' => '\u{1D44F}',
        'c' => '\u{1D450}',
        'd' => '\u{1D451}',
        'e' => '\u{1D452}',
        'f' => '\u{1D453}',
        'g' => '\u{1D454}',
        'h' => '\u{210E}',
        'i' => '\u{1D456}',
        'j' => '\u{1D457}',
        'k' => '\u{1D458}',
        'l' => '\u{1D459}',
        'm' => '\u{1D45A}',
        'n' => '\u{1D45B}',
        'o' => '\u{1D45C}',
        'p' => '\u{1D45D}',
        'q' => '\u{1D45E}',
        'r' => '\u{1D45F}',
        's' => '\u{1D460}',
        't' => '\u{1D461}',
        'u' => '\u{1D462}',
        'v' => '\u{1D463}',
        'w' => '\u{1D464}',
        'x' => '\u{1D465}',
        'y' => '\u{1D466}',
        'z' => '\u{1D467}',
        _ => c,
    }
}

fn italic_char(c: char) -> (r: char)
    ensures
        r == spec_italic_char(c),
{
    match c {
        'A' => '\u{1D434}',
        'B' => '\u{1D435}',
        'C' => '\u{1D436}',
        'D' => '\u{1D437}',
        'E' => '\u{1D438}',
        'F' => '\u{1D439}',
        'G' => '\u{1D43A}',
        'H' => '\u{1D43B}',
        'I' => '\u{1D43C}',
        'J' => '\u{1D43D}',
        'K' => '\u{1D43E}',
        'L' => '\u{1D43F}',
        'M' => '\u{1D440}',
        'N' => '\u{1D441}',
        'O' => '\u{1D442}',
        'P' => '\u{1D443}',
        'Q' => '\u{1D444}',
        'R' => '\u{1D445}',
        'S' => '\u{1D446}',
        'T' => '\u{1D447}',
        'U' => '\u{1D448}',
        'V' => '\u{1D449}',
        'W' => '\u{1D44A}',
        'X' => '\u{1D44B}',
        'Y' => '\u{1D44C}',
        'Z' => '\u{1D44D}',
        'a' => '\u{1D44E}',
        'b' => '\u{1D44F}',
        'c' => '\u{1D450}',
        'd' => '\u{1D451}',
        'e' => '\u{1D452}',
        'f' => '\u{1D453}',
        'g' => '\u{1D454}',
        'h' => '\u{210E}',
        'i' => '\u{1D456}',
        'j' => '\u{1D457}',
        'k' => '\u{1D458}',
        'l' => '\u{1D459}',
        'm' => '\u{1D45A}',
        'n' => '\u{1D45B}',
        'o' => '\u{1D45C}',
        'p' => '\u{1D45D}',
        'q' => '\u{1D45E}',
        'r' => '\u{1D45F}',
        's' => '\u{1D460}',
        't' => '\u{1D461}',
        'u' => '\u{1D462}',
        'v' => '\u{1D463}',
        'w' => '\u{1D464}',
        'x' => '\u{1D465}',
        'y' => '\u{1D466}',
        'z' => '\u{1D467}',
        _ => c,
    }
}

/// The BoldItalic variant of an ASCII letter or digit, or the character
/// itself where the style has no codepoint for it.
pub open spec fn spec_bold_italic_char(c: char) -> char {
    match c {
        'A' => '\u{1D468}',
        'B' => '\u{1D469}',
        'C' => '\u{1D46A}',
        'D' => '\u{1D46B}',
        'E' => '\u{1D46C}',
        'F' => '\u{1D46D}',
        'G' => '\u{1D46E}',
        'H' => '\u{1D46F}',
        'I' => '\u{1D470}',
        'J' => '\u{1D471}',
        'K' => '\u{1D472}',
        'L' => '\u{1D473}',
        'M' => '\u{1D474}',
        'N' => '\u{1D475}',
        'O' => '\u{1D476}',
        'P' => '\u{1D477}',
        'Q' => '\u{1D478}',
        'R' => '\u{1D479}',
        'S' => '\u{1D47A}',
        'T' => '\u{1D47B}',
        'U' => '\u{1D47C}',
        'V' => '\u{1D47D}',
        'W' => '\u{1D47E}',
        'X' => '\u{1D47F}',
        'Y' => '\u{1D480}',
        'Z' => '\u{1D481}',
        'a' => '\u{1D482}',
        'b' => '\u{1D483}',
        'c' => '\u{1D484}',
        'd' => '\u{1D485}',
        'e' => '\u{1D486}',
        'f' => '\u{1D487}',
        'g' => '\u{1D488}',
        'h' => '\u{1D489}',
        'i' => '\u{1D48A}',
        'j' => '\u{1D48B}',
        'k' => '\u{1D48C}',
        'l' => '\u{1D48D}',
        'm' => '\u{1D48E}',
        'n' => '\u{1D48F}',
        'o' => '\u{1D490}',
        'p' => '\u{1D491}',
        'q' => '\u{1D492}',
        'r' => '\u{1D493}',
        's' => '\u{1D494}',
        't' => '\u{1D495}',
        'u' => '\u{1D496}',
        'v' => '\u{1D497}',
        'w' => '\u{1D498}',
        'x' => '\u{1D499}',
        'y' => '\u{1D49A}',
        'z' => '\u{1D49B}',
        _ => c,
    }
}

fn bold_italic_char(c: char) -> (r: char)
    ensures
        r == spec_bold_italic_char(c),
{
    match c {
        'A' => '\u{1D468}',
        'B' => '\u{1D469}',
        'C' => '\u{1D46A}',
        'D' => '\u{1D46B}',
        'E' => '\u{1D46C}',
        'F' => '\u{1D46D}',
        'G' => '\u{1D46E}',
        'H' => '\u{1D46F}',
        'I' => '\u{1D470}',
        'J' => '\u{1D471}',
        'K' => '\u{1D472}',
        'L' => '\u{1D473}',
        'M' => '\u{1D474}',
        'N' => '\u{1D475}',
        'O' => '\u{1D476}',
        'P' => '\u{1D477}',
        'Q' => '\u{1D478}',
        'R' => '\u{1D479}',
        'S' => '\u{1D47A}',
        'T' => '\u{1D47B}',
        'U' => '\u{1D47C}',
        'V' => '\u{1D47D}',
        'W' => '\u{1D47E}',
        'X' => '\u{1D47F}',
        'Y' => '\u{1D480}',
        'Z' => '\u{1D481}',
        'a' => '\u{1D482}',
        'b' => '\u{1D483}',
        'c' => '\u{1D484}',
        'd' => '\u{1D485}',
        'e' => '\u{1D486}',
        'f' => '\u{1D487}',
        'g' => '\u{1D488}',
        'h' => '\u{1D489}',
        'i' => '\u{1D48A}',
        'j' => '\u{1D48B}',
        'k' => '\u{1D48C}',
        'l' => '\u{1D48D}',
        'm' => '\u{1D48E}',
        'n' => '\u{1D48F}',
        'o' => '\u{1D490}',
        'p' => '\u{1D491}',
        'q' => '\u{1D492}',
        'r' => '\u{1D493}',
        's' => '\u{1D494}',
        't' => '\u{1D495}',
        'u' => '\u{1D496}',
        'v' => '\u{1D497}',
        'w' => '\u{1D498}',
        'x' => '\u{1D499}',
        'y' => '\u{1D49A}',
        'z' => '\u{1D49B}',
        _ => c,
    }
}

/// The Script variant of an ASCII letter or digit, or the character
/// itself where the style has no codepoint for it.
pub open spec fn spec_script_char(c: char) -> char {
    match c {
        'A' => '\u{1D49C}',
        'B' => '\u{212C}',
        'C' => '\u{1D49E}',
        'D' => '\u{1D49F}',
        'E' => '\u{2130}',
        'F' => '\u{2131}',
        'G' => '\u{1D4A2}',
        'H' => '\u{210B}',
        'I' => '\u{2110}',
        'J' => '\u{1D4A5}',
        'K' => '\u{1D4A6}',
        'L' => '\u{2112}',
        'M' => '\u{2133}',
        'N' => '\u{1D4A9}',
        'O' => '\u{1D4AA}',
        'P' => '\u{1D4AB}',
        'Q' => '\u{1D4AC}',
        'R' => '\u{211B}',
        'S' => '\u{1D4AE}',
        'T' => '\u{1D4AF}',
        'U' => '\u{1D4B0}',
        'V' => '\u{1D4B1}',
        'W' => '\u{1D4B2}',
        'X' => '\u{1D4B3}',
        'Y' => '\u{1D4B4}',
        'Z' => '\u{1D4B5}',
        'a' => '\u{1D4B6}',
        'b' => '\u{1D4B7}',
        'c' => '\u{1D4B8}',
        'd' => '\u{1D4B9}',
        'e' => '\u{212F}',
        'f' => '\u{1D4BB}',
        'g' => '\u{210A}',
        'h' => '\u{1D4BD}',
        'i' => '\u{1D4BE}',
        'j' => '\u{1D4BF}',
        'k' => '\u{1D4C0}',
        'l' => '\u{1D4C1}',
        'm' => '\u{1D4C2}',
        'n' => '\u{1D4C3}',
        'o' => '\u{2134}',
        'p' => '\u{1D4C5}',
        'q' => '\u{1D4C6}',
        'r' => '\u{1D4C7}',
        's' => '\u{1D4C8}',
        't' => '\u{1D4C9}',
        'u' => '\u{1D4CA}',
        'v' => '\u{1D4CB}',
        'w' => '\u{1D4CC}',
        'x' => '\u{1D4CD}',
        'y' => '\u{1D4CE}',
        'z' => '\u{1D4CF}',
        _ => c,
    }
}

fn script_char(c: char) -> (r: char)
    ensures
        r == spec_script_char(c),
{
    match c {
        'A' => '\u{1D49C}',
        'B' => '\u{212C}',
        'C' => '\u{1D49E}',
        'D' => '\u{1D49F}',
        'E' => '\u{2130}',
        'F' => '\u{2131}',
        'G' => '\u{1D4A2}',
        'H' => '\u{210B}',
        'I' => '\u{2110}',
        'J' => '\u{1D4A5}',
        'K' => '\u{1D4A6}',
        'L' => '\u{2112}',
        'M' => '\u{2133}',
        'N' => '\u{1D4A9}',
        'O' => '\u{1D4AA}',
        'P' => '\u{1D4AB}',
        'Q' => '\u{1D4AC}',
        'R' => '\u{211B}',
        'S' => '\u{1D4AE}',
        'T' => '\u{1D4AF}',
        'U' => '\u{1D4B0}',
        'V' => '\u{1D4B1}',
        'W' => '\u{1D4B2}',
        'X' => '\u{1D4B3}',
        'Y' => '\u{1D4B4}',
        'Z' => '\u{1D4B5}',
        'a' => '\u{1D4B6}',
        'b' => '\u{1D4B7}',
        'c' => '\u{1D4B8}',
        'd' => '\u{1D4B9}',
        'e' => '\u{212F}',
        'f' => '\u{1D4BB}',
        'g' => '\u{210A}',
        'h' => '\u{1D4BD}',
        'i' => '\u{1D4BE}',
        'j' => '\u{1D4BF}',
        'k' => '\u{1D4C0}',
        'l' => '\u{1D4C1}',
        'm' => '\u{1D4C2}',
        'n' => '\u{1D4C3}',
        'o' => '\u{2134}',
        'p' => '\u{1D4C5}',
        'q' => '\u{1D4C6}',
        'r' => '\u{1D4C7}',
        's' => '\u{1D4C8}',
        't' => '\u{1D4C9}',
        'u' => '\u{1D4CA}',
        'v' => '\u{1D4CB}',
        'w' => '\u{1D4CC}',
        'x' => '\u{1D4CD}',
        'y' => '\u{1D4CE}',
        'z' => '\u{1D4CF}',
        _ => c,
    }
}

/// The Fraktur variant of an ASCII letter or digit, or the character
/// itself where the style has no codepoint for it.
pub open spec fn spec_fraktur_char(c: char) -> char {
    match c {
        'A' => '\u{1D504}',
        'B' => '\u{1D505}',
        'C' => '\u{212D}',
        'D' => '\u{1D507}',
        'E' => '\u{1D508}',
        'F' => '\u{1D509}',
        'G' => '\u{1D50A}',
        'H' => '\u{210C}',
        'I' => '\u{2111}',
        'J' => '\u{1D50D}',
        'K' => '\u{1D50E}',
        'L' => '\u{1D50F}',
        'M' => '\u{1D510}',
        'N' => '\u{1D511}',
        'O' => '\u{1D512}',
        'P' => '\u{1D513}',
        'Q' => '\u{1D514}',
        'R' => '\u{211C}',
        'S' => '\u{1D516}',
        'T' => '\u{1D517}',
        'U' => '\u{1D518}',
        'V' => '\u{1D519}',
        'W' => '\u{1D51A}',
        'X' => '\u{1D51B}',
        'Y' => '\u{1D51C}',
        'Z' => '\u{2128}',
        'a' => '\u{1D51E}',
        'b' => '\u{1D51F}',
        'c' => '\u{1D520}',
        'd' => '\u{1D521}',
        'e' => '\u{1D522}',
        'f' => '\u{1D523}',
        'g' => '\u{1D524}',
        'h' => '\u{1D525}',
        'i' => '\u{1D526}',
        'j' => '\u{1D527}',
        'k' => '\u{1D528}',
        'l' => '\u{1D529}',
        'm' => '\u{1D52A}',
        'n' => '\u{1D52B}',
        'o' => '\u{1D52C}',
        'p' => '\u{1D52D}',
        'q' => '\u{1D52E}',
        'r' => '\u{1D52F}',
        's' => '\u{1D530}',
        't' => '\u{1D531}',
        'u' => '\u{1D532}',
        'v' => '\u{1D533}',
        'w' => '\u{1D534}',
        'x' => '\u{1D535}',
        'y' => '\u{1D536}',
        'z' => '\u{1D537}',
        _ => c,
    }
}

fn fraktur_char(c: char) -> (r: char)
    ensures
        r == spec_fraktur_char(c),
{
    match c {
        'A' => '\u{1D504}',
        'B' => '\u{1D505}',
        'C' => '\u{212D}',
        'D' => '\u{1D507}',
        'E' => '\u{1D508}',
        'F' => '\u{1D509}',
        'G' => '\u{1D50A}',
        'H' => '\u{210C}',
        'I' => '\u{2111}',
        'J' => '\u{1D50D}',
        'K' => '\u{1D50E}',
        'L' => '\u{1D50F}',
        'M' => '\u{1D510}',
        'N' => '\u{1D511}',
        'O' => '\u{1D512}',
        'P' => '\u{1D513}',
        'Q' => '\u{1D514}',
        'R' => '\u{211C}',
        'S' => '\u{1D516}',
        'T' => '\u{1D517}',
        'U' => '\u{1D518}',
        'V' => '\u{1D519}',
        'W' => '\u{1D51A}',
        'X' => '\u{1D51B}',
        'Y' => '\u{1D51C}',
        'Z' => '\u{2128}',
        'a' => '\u{1D51E}',
        'b' => '\u{1D51F}',
        'c' => '\u{1D520}',
        'd' => '\u{1D521}',
        'e' => '\u{1D522}',
        'f' => '\u{1D523}',
        'g' => '\u{1D524}',
        'h' => '\u{1D525}',
        'i' => '\u{1D526}',
        'j' => '\u{1D527}',
        'k' => '\u{1D528}',
        'l' => '\u{1D529}',
        'm' => '\u{1D52A}',
        'n' => '\u{1D52B}',
        'o' => '\u{1D52C}',
        'p' => '\u{1D52D}',
        'q' => '\u{1D52E}',
        'r' => '\u{1D52F}',
        's' => '\u{1D530}',
        't' => '\u{1D531}',
        'u' => '\u{1D532}',
        'v' => '\u{1D533}',
        'w' => '\u{1D534}',
        'x' => '\u{1D535}',
        'y' => '\u{1D536}',
        'z' => '\u{1D537}',
        _ => c,
    }
}

/// The DoubleStruck variant of an ASCII letter or digit, or the character
/// itself where the style has no codepoint for it.
pub open spec fn spec_double_struck_char(c: char) -> char {
    match c {
        'A' => '\u{1D538}',
        'B' => '\u{1D539}',
        'C' => '\u{2102}',
        'D' => '\u{1D53B}',
        'E' => '\u{1D53C}',
        'F' => '\u{1D53D}',
        'G' => '\u{1D53E}',
        'H' => '\u{210D}',
        'I' => '\u{1D540}',
        'J' => '\u{1D541}',
        'K' => '\u{1D542}',
        'L' => '\u{1D543}',
        'M' => '\u{1D544}',
        'N' => '\u{2115}',
        'O' => '\u{1D546}',
        'P' => '\u{2119}',
        'Q' => '\u{211A}',
        'R' => '\u{211D}',
        'S' => '\u{1D54A}',
        'T' => '\u{1D54B}',
        'U' => '\u{1D54C}',
        'V' => '\u{1D54D}',
        'W' => '\u{1D54E}',
        'X' => '\u{1D54F}',
        'Y' => '\u{1D550}',
        'Z' => '\u{2124}',
        'a' => '\u{1D552}',
        'b' => '\u{1D553}',
        'c' => '\u{1D554}',
        'd' => '\u{1D555}',
        'e' => '\u{1D556}',
        'f' => '\u{1D557}',
        'g' => '\u{1D558}',
        'h' => '\u{1D559}',
        'i' => '\u{1D55A}',
        'j' => '\u{1D55B}',
        'k' => '\u{1D55C}',
        'l' => '\u{1D55D}',
        'm' => '\u{1D55E}',
        'n' => '\u{1D55F}',
        'o' => '\u{1D560}',
        'p' => '\u{1D561}',
        'q' => '\u{1D562}',
        'r' => '\u{1D563}',
        's' => '\u{1D564}',
        't' => '\u{1D565}',
        'u' => '\u{1D566}',
        'v' => '\u{1D567}',
        'w' => '\u{1D568}',
        'x' => '\u{1D569}',
        'y' => '\u{1D56A}',
        'z' => '\u{1D56B}',
        '0' => '\u{1D7D8}',
        '1' => '\u{1D7D9}',
        '2' => '\u{1D7DA}',
        '3' => '\u{1D7DB}',
        '4' => '\u{1D7DC}',
        '5' => '\u{1D7DD}',
        '6' => '\u{1D7DE}',
        '7' => '\u{1D7DF}',
        '8' => '\u{1D7E0}',
        '9' => '\u{1D7E1}',
        _ => c,
    }
}

fn double_struck_char(c: char) -> (r: char)
    ensures
        r == spec_double_struck_char(c),
{
    match c {
        'A' => '\u{1D538}',
        'B' => '\u{1D539}',
        'C' => '\u{2102}',
        'D' => '\u{1D53B}',
        'E' => '\u{1D53C}',
        'F' => '\u{1D53D}',
        'G' => '\u{1D53E}',
        'H' => '\u{210D}',
        'I' => '\u{1D540}',
        'J' => '\u{1D541}',
        'K' => '\u{1D542}',
        'L' => '\u{1D543}',
        'M' => '\u{1D544}',
        'N' => '\u{2115}',
        'O' => '\u{1D546}',
        'P' => '\u{2119}',
        'Q' => '\u{211A}',
        'R' => '\u{211D}',
        'S' => '\u{1D54A}',
        'T' => '\u{1D54B}',
        'U' => '\u{1D54C}',
        'V' => '\u{1D54D}',
        'W' => '\u{1D54E}',
        'X' => '\u{1D54F}',
        'Y' => '\u{1D550}',
        'Z' => '\u{2124}',
        'a' => '\u{1D552}',
        'b' => '\u{1D553}',
        'c' => '\u{1D554}',
        'd' => '\u{1D555}',
        'e' => '\u{1D556}',
        'f' => '\u{1D557}',
        'g' => '\u{1D558}',
        'h' => '\u{1D559}',
        'i' => '\u{1D55A}',
        'j' => '\u{1D55B}',
        'k' => '\u{1D55C}',
        'l' => '\u{1D55D}',
        'm' => '\u{1D55E}',
        'n' => '\u{1D55F}',
        'o' => '\u{1D560}',
        'p' => '\u{1D561}',
        'q' => '\u{1D562}',
        'r' => '\u{1D563}',
        's' => '\u{1D564}',
        't' => '\u{1D565}',
        'u' => '\u{1D566}',
        'v' => '\u{1D567}',
        'w' => '\u{1D568}',
        'x' => '\u{1D569}',
        'y' => '\u{1D56A}',
        'z' => '\u{1D56B}',
        '0' => '\u{1D7D8}',
        '1' => '\u{1D7D9}',
        '2' => '\u{1D7DA}',
        '3' => '\u{1D7DB}',
        '4' => '\u{1D7DC}',
        '5' => '\u{1D7DD}',
        '6' => '\u{1D7DE}',
        '7' => '\u{1D7DF}',
        '8' => '\u{1D7E0}',
        '9' => '\u{1D7E1}',
        _ => c,
    }
}

/// The SansSerif variant of an ASCII letter or digit, or the character
/// itself where the style has no codepoint for it.
pub open spec fn spec_sans_char(c: char) -> char {
    match c {
        'A' => '\u{1D5A0}',
        'B' => '\u{1D5A1}',
        'C' => '\u{1D5A2}',
        'D' => '\u{1D5A3}',
        'E' => '\u{1D5A4}',
        'F' => '\u{1D5A5}',
        'G' => '\u{1D5A6}',
        'H' => '\u{1D5A7}',
        'I' => '\u{1D5A8}',
        'J' => '\u{1D5A9}',
        'K' => '\u{1D5AA}',
        'L' => '\u{1D5AB}',
        'M' => '\u{1D5AC}',
        'N' => '\u{1D5AD}',
        'O' => '\u{1D5AE}',
        'P' => '\u{1D5AF}',
        'Q' => '\u{1D5B0}',
        'R' => '\u{1D5B1}',
        'S' => '\u{1D5B2}',
        'T' => '\u{1D5B3}',
        'U' => '\u{1D5B4}',
        'V' => '\u{1D5B5}',
        'W' => '\u{1D5B6}',
        'X' => '\u{1D5B7}',
        'Y' => '\u{1D5B8}',
        'Z' => '\u{1D5B9}',
        'a' => '\u{1D5BA}',
        'b' => '\u{1D5BB}',
        'c' => '\u{1D5BC}',
        'd' => '\u{1D5BD}',
        'e' => '\u{1D5BE}',
        'f' => '\u{1D5BF}',
        'g' => '\u{1D5C0}',
        'h' => '\u{1D5C1}',
        'i' => '\u{1D5C2}',
        'j' => '\u{1D5C3}',
        'k' => '\u{1D5C4}',
        'l' => '\u{1D5C5}',
        'm' => '\u{1D5C6}',
        'n' => '\u{1D5C7}',
        'o' => '\u{1D5C8}',
        'p' => '\u{1D5C9}',
        'q' => '\u{1D5CA}',
        'r' => '\u{1D5CB}',
        's' => '\u{1D5CC}',
        't' => '\u{1D5CD}',
        'u' => '\u{1D5CE}',
        'v' => '\u{1D5CF}',
        'w' => '\u{1D5D0}',
        'x' => '\u{1D5D1}',
        'y' => '\u{1D5D2}',
        'z' => '\u{1D5D3}',
        '0' => '\u{1D7E2}',
        '1' => '\u{1D7E3}',
        '2' => '\u{1D7E4}',
        '3' => '\u{1D7E5}',
        '4' => '\u{1D7E6}',
        '5' => '\u{1D7E7}',
        '6' => '\u{1D7E8}',
        '7' => '\u{1D7E9}',
        '8' => '\u{1D7EA}',
        '9' => '\u{1D7EB}',
        _ => c,
    }
}

fn sans_char(c: char) -> (r: char)
    ensures
        r == spec_sans_char(c),
{
    match c {
        'A' => '\u{1D5A0}',
        'B' => '\u{1D5A1}',
        'C' => '\u{1D5A2}',
        'D' => '\u{1D5A3}',
        'E' => '\u{1D5A4}',
        'F' => '\u{1D5A5}',
        'G' => '\u{1D5A6}',
        'H' => '\u{1D5A7}',
        'I' => '\u{1D5A8}',
        'J' => '\u{1D5A9}',
        'K' => '\u{1D5AA}',
        'L' => '\u{1D5AB}',
        'M' => '\u{1D5AC}',
        'N' => '\u{1D5AD}',
        'O' => '\u{1D5AE}',
        'P' => '\u{1D5AF}',
        'Q' => '\u{1D5B0}',
        'R' => '\u{1D5B1}',
        'S' => '\u{1D5B2}',
        'T' => '\u{1D5B3}',
        'U' => '\u{1D5B4}',
        'V' => '\u{1D5B5}',
        'W' => '\u{1D5B6}',
        'X' => '\u{1D5B7}',
        'Y' => '\u{1D5B8}',
        'Z' => '\u{1D5B9}',
        'a' => '\u{1D5BA}',
        'b' => '\u{1D5BB}',
        'c' => '\u{1D5BC}',
        'd' => '\u{1D5BD}',
        'e' => '\u{1D5BE}',
        'f' => '\u{1D5BF}',
        'g' => '\u{1D5C0}',
        'h' => '\u{1D5C1}',
        'i' => '\u{1D5C2}',
        'j' => '\u{1D5C3}',
        'k' => '\u{1D5C4}',
        'l' => '\u{1D5C5}',
        'm' => '\u{1D5C6}',
        'n' => '\u{1D5C7}',
        'o' => '\u{1D5C8}',
        'p' => '\u{1D5C9}',
        'q' => '\u{1D5CA}',
        'r' => '\u{1D5CB}',
        's' => '\u{1D5CC}',
        't' => '\u{1D5CD}',
        'u' => '\u{1D5CE}',
        'v' => '\u{1D5CF}',
        'w' => '\u{1D5D0}',
        'x' => '\u{1D5D1}',
        'y' => '\u{1D5D2}',
        'z' => '\u{1D5D3}',
        '0' => '\u{1D7E2}',
        '1' => '\u{1D7E3}',
        '2' => '\u{1D7E4}',
        '3' => '\u{1D7E5}',
        '4' => '\u{1D7E6}',
        '5' => '\u{1D7E7}',
        '6' => '\u{1D7E8}',
        '7' => '\u{1D7E9}',
        '8' => '\u{1D7EA}',
        '9' => '\u{1D7EB}',
        _ => c,
    }
}

/// The Monospace variant of an ASCII letter or digit, or the character
/// itself where the style has no codepoint for it.
pub open spec fn spec_mono_char(c: char) -> char {
    match c {
        'A' => '\u{1D670}',
        'B' => '\u{1D671}',
        'C' => '\u{1D672}',
        'D' => '\u{1D673}',
        'E' => '\u{1D674}',
        'F' => '\u{1D675}',
        'G' => '\u{1D676}',
        'H' => '\u{1D677}',
        'I' => '\u{1D678}',
        'J' => '\u{1D679}',
        'K' => '\u{1D67A}',
        'L' => '\u{1D67B}',
        'M' => '\u{1D67C}',
        'N' => '\u{1D67D}',
        'O' => '\u{1D67E}',
        'P' => '\u{1D67F}',
        'Q' => '\u{1D680}',
        'R' => '\u{1D681}',
        'S' => '\u{1D682}',
        'T' => '\u{1D683}',
        'U' => '\u{1D684}',
        'V' => '\u{1D685}',
        'W' => '\u{1D686}',
        'X' => '\u{1D687}',
        'Y' => '\u{1D688}',
        'Z' => '\u{1D689}',
        'a' => '\u{1D68A}',
        'b' => '\u{1D68B}',
        'c' => '\u{1D68C}',
        'd' => '\u{1D68D}',
        'e' => '\u{1D68E}',
        'f' => '\u{1D68F}',
        'g' => '\u{1D690}',
        'h' => '\u{1D691}',
        'i' => '\u{1D692}',
        'j' => '\u{1D693}',
        'k' => '\u{1D694}',
        'l' => '\u{1D695}',
        'm' => '\u{1D696}',
        'n' => '\u{1D697}',
        'o' => '\u{1D698}',
        'p' => '\u{1D699}',
        'q' => '\u{1D69A}',
        'r' => '\u{1D69B}',
        's' => '\u{1D69C}',
        't' => '\u{1D69D}',
        'u' => '\u{1D69E}',
        'v' => '\u{1D69F}',
        'w' => '\u{1D6A0}',
        'x' => '\u{1D6A1}',
        'y' => '\u{1D6A2}',
        'z' => '\u{1D6A3}',
        '0' => '\u{1D7F6}',
        '1' => '\u{1D7F7}',
        '2' => '\u{1D7F8}',
        '3' => '\u{1D7F9}',
        '4' => '\u{1D7FA}',
        '5' => '\u{1D7FB}',
        '6' => '\u{1D7FC}',
        '7' => '\u{1D7FD}',
        '8' => '\u{1D7FE}',
        '9' => '\u{1D7FF}',
        _ => c,
    }
}

fn mono_char(c: char) -> (r: char)
    ensures
        r == spec_mono_char(c),
{
    match c {
        'A' => '\u{1D670}',
        'B' => '\u{1D671}',
        'C' => '\u{1D672}',
        'D' => '\u{1D673}',
        'E' => '\u{1D674}',
        'F' => '\u{1D675}',
        'G' => '\u{1D676}',
        'H' => '\u{1D677}',
        'I' => '\u{1D678}',
        'J' => '\u{1D679}',
        'K' => '\u{1D67A}',
        'L' => '\u{1D67B}',
        'M' => '\u{1D67C}',
        'N' => '\u{1D67D}',
        'O' => '\u{1D67E}',
        'P' => '\u{1D67F}',
        'Q' => '\u{1D680}',
        'R' => '\u{1D681}',
        'S' => '\u{1D682}',
        'T' => '\u{1D683}',
        'U' => '\u{1D684}',
        'V' => '\u{1D685}',
        'W' => '\u{1D686}',
        'X' => '\u{1D687}',
        'Y' => '\u{1D688}',
        'Z' => '\u{1D689}',
        'a' => '\u{1D68A}',
        'b' => '\u{1D68B}',
        'c' => '\u{1D68C}',
        'd' => '\u{1D68D}',
        'e' => '\u{1D68E}',
        'f' => '\u{1D68F}',
        'g' => '\u{1D690}',
        'h' => '\u{1D691}',
        'i' => '\u{1D692}',
        'j' => '\u{1D693}',
        'k' => '\u{1D694}',
        'l' => '\u{1D695}',
        'm' => '\u{1D696}',
        'n' => '\u{1D697}',
        'o' => '\u{1D698}',
        'p' => '\u{1D699}',
        'q' => '\u{1D69A}',
        'r' => '\u{1D69B}',
        's' => '\u{1D69C}',
        't' => '\u{1D69D}',
        'u' => '\u{1D69E}',
        'v' => '\u{1D69F}',
        'w' => '\u{1D6A0}',
        'x' => '\u{1D6A1}',
        'y' => '\u{1D6A2}',
        'z' => '\u{1D6A3}',
        '0' => '\u{1D7F6}',
        '1' => '\u{1D7F7}',
        '2' => '\u{1D7F8}',
        '3' => '\u{1D7F9}',
        '4' => '\u{1D7FA}',
        '5' => '\u{1D7FB}',
        '6' => '\u{1D7FC}',
        '7' => '\u{1D7FD}',
        '8' => '\u{1D7FE}',
        '9' => '\u{1D7FF}',
        _ => c,
    }
}

/// What the style mapper returns for a (style, character) pair: the styled
/// codepoint from the tables above, or the character itself for `Plain`,
/// for characters outside the tables, and for pairs Unicode does not cover.
pub open spec fn spec_style_map(st: Style, c: char) -> char {
    match st {
        Style::Plain => c,
        Style::Bold => spec_bold_char(c),
        Style::Italic => spec_italic_char(c),
        Style::BoldItalic => spec_bold_italic_char(c),
        Style::Script => spec_script_char(c),
        Style::Fraktur => spec_fraktur_char(c),
        Style::DoubleStruck => spec_double_struck_char(c),
        Style::SansSerif => spec_sans_char(c),
        Style::Monospace => spec_mono_char(c),
    }
}

/// Map one character through a style's table.
///
/// Total and pure: every ASCII letter and digit yields exactly one styled
/// character when the style covers it, and every other pair yields the
/// input character unchanged. Never errors, never drops a character.
pub fn style_map(st: Style, c: char) -> (r: char)
    ensures
        r == spec_style_map(st, c),
{
    match st {
        Style::Plain => c,
        Style::Bold => bold_char(c),
        Style::Italic => italic_char(c),
        Style::BoldItalic => bold_italic_char(c),
        Style::Script => script_char(c),
        Style::Fraktur => fraktur_char(c),
        Style::DoubleStruck => double_struck_char(c),
        Style::SansSerif => sans_char(c),
        Style::Monospace => mono_char(c),
    }
}

/// The style mapper is deterministic: two results of mapping the same
/// (style, character) pair are the same character.
pub proof fn lemma_style_map_deterministic(st: Style, c: char, r1: char, r2: char)
    requires
        r1 == spec_style_map(st, c),
        r2 == spec_style_map(st, c),
    ensures
        r1 == r2,
{
}

} // verus!
