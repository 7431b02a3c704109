//! Fraction formatter: a precomposed vulgar-fraction glyph, a
//! superscript/subscript digit composition, or the plain `num/den` fallback.

use vstd::prelude::*;

verus! {

/// Whether a character is an ASCII digit.
pub open spec fn is_digit_char(c: char) -> bool {
    '0' <= c && c <= '9'
}

/// Whether a sequence is a nonempty run of ASCII digits.
pub open spec fn is_digit_seq(s: Seq<char>) -> bool {
    s.len() > 0 && forall|i: int| 0 <= i < s.len() ==> is_digit_char(s[i])
}

/// The superscript form of an ASCII digit, or the character itself for
/// anything else.
pub open spec fn spec_sup_digit(c: char) -> char {
    match c {
        '0' => '\u{2070}',
        '1' => '\u{B9}',
        '2' => '\u{B2}',
        '3' => '\u{B3}',
        '4' => '\u{2074}',
        '5' => '\u{2075}',
        '6' => '\u{2076}',
        '7' => '\u{2077}',
        '8' => '\u{2078}',
        '9' => '\u{2079}',
        _ => c,
    }
}

/// The subscript form of an ASCII digit, or the character itself for
/// anything else.
pub open spec fn spec_sub_digit(c: char) -> char {
    match c {
        '0' => '\u{2080}',
        '1' => '\u{2081}',
        '2' => '\u{2082}',
        '3' => '\u{2083}',
        '4' => '\u{2084}',
        '5' => '\u{2085}',
        '6' => '\u{2086}',
        '7' => '\u{2087}',
        '8' => '\u{2088}',
        '9' => '\u{2089}',
        _ => c,
    }
}

/// A digit run mapped digit-by-digit to superscript codepoints.
pub open spec fn spec_sup_seq(s: Seq<char>) -> Seq<char> {
    Seq::new(s.len(), |i: int| spec_sup_digit(s[i]))
}

/// A digit run mapped digit-by-digit to subscript codepoints.
pub open spec fn spec_sub_seq(s: Seq<char>) -> Seq<char> {
    Seq::new(s.len(), |i: int| spec_sub_digit(s[i]))
}

/// The precomposed Unicode glyph for a one-digit numerator over a one-digit
/// denominator, where one exists.
pub open spec fn spec_vulgar_pair(n: char, d: char) -> Option<char> {
    match (n, d) {
        ('1', '2') => Some('\u{BD}'),
        ('1', '4') => Some('\u{BC}'),
        ('3', '4') => Some('\u{BE}'),
        ('0', '3') => Some('\u{2189}'),
        ('1', '3') => Some('\u{2153}'),
        ('2', '3') => Some('\u{2154}'),
        ('1', '5') => Some('\u{2155}'),
        ('2', '5') => Some('\u{2156}'),
        ('3', '5') => Some('\u{2157}'),
        ('4', '5') => Some('\u{2158}'),
        ('1', '6') => Some('\u{2159}'),
        ('5', '6') => Some('\u{215A}'),
        ('1', '7') => Some('\u{2150}'),
        ('1', '8') => Some('\u{215B}'),
        ('3', '8') => Some('\u{215C}'),
        ('5', '8') => Some('\u{215D}'),
        ('7', '8') => Some('\u{215E}'),
        ('1', '9') => Some('\u{2151}'),
        _ => None,
    }
}

/// The precomposed Unicode glyph for an exact numerator/denominator pair as
/// written, where one exists: the one-digit pairs above, and `1/10`.
pub open spec fn spec_vulgar(num: Seq<char>, den: Seq<char>) -> Option<char> {
    if num.len() == 1 && den.len() == 1 {
        spec_vulgar_pair(num[0], den[0])
    } else if num.len() == 1 && den.len() == 2 && num[0] == '1' && den[0] == '1' && den[1] == '0' {
        Some('\u{2152}')
    } else {
        None
    }
}

/// What the fraction formatter emits for a numerator/denominator pair under
/// the two fraction flags: the precomposed glyph when `vulgar` is set and
/// the exact pair has one; else the superscript-slash-subscript composition
/// when `script` is set and both sides are digit runs; else the plain
/// `num/den` text unchanged. The precomposed glyph always wins when both
/// flags apply to the same pair, and non-digit content is never eligible
/// for either substitution.
pub open spec fn spec_format(num: Seq<char>, den: Seq<char>, vulgar: bool, script: bool) -> Seq<
    char,
> {
    if vulgar && spec_vulgar(num, den) is Some {
        seq![spec_vulgar(num, den)->Some_0]
    } else if script && is_digit_seq(num) && is_digit_seq(den) {
        spec_sup_seq(num) + seq!['\u{2044}'] + spec_sub_seq(den)
    } else {
        num + seq!['/'] + den
    }
}

fn sup_digit(c: char) -> (r: char)
    ensures
        r == spec_sup_digit(c),
{
    match c {
        '0' => '\u{2070}',
        '1' => '\u{B9}',
        '2' => '\u{B2}',
        '3' => '\u{B3}',
        '4' => '\u{2074}',
        '5' => '\u{2075}',
        '6' => '\u{2076}',
        '7' => '\u{2077}',
        '8' => '\u{2078}',
        '9' => '\u{2079}',
        _ => c,
    }
}

fn sub_digit(c: char) -> (r: char)
    ensures
        r == spec_sub_digit(c),
{
    match c {
        '0' => '\u{2080}',
        '1' => '\u{2081}',
        '2' => '\u{2082}',
        '3' => '\u{2083}',
        '4' => '\u{2084}',
        '5' => '\u{2085}',
        '6' => '\u{2086}',
        '7' => '\u{2087}',
        '8' => '\u{2088}',
        '9' => '\u{2089}',
        _ => c,
    }
}

fn vulgar_lookup(num: &Vec<char>, den: &Vec<char>) -> (r: Option<char>)
    ensures
        r == spec_vulgar(num@, den@),
{
    if num.len() == 1 && den.len() == 1 {
        match (num[0], den[0]) {
            ('1', '2') => Some('\u{BD}'),
            ('1', '4') => Some('\u{BC}'),
            ('3', '4') => Some('\u{BE}'),
            ('0', '3') => Some('\u{2189}'),
            ('1', '3') => Some('\u{2153}'),
            ('2', '3') => Some('\u{2154}'),
            ('1', '5') => Some('\u{2155}'),
            ('2', '5') => Some('\u{2156}'),
            ('3', '5') => Some('\u{2157}'),
            ('4', '5') => Some('\u{2158}'),
            ('1', '6') => Some('\u{2159}'),
            ('5', '6') => Some('\u{215A}'),
            ('1', '7') => Some('\u{2150}'),
            ('1', '8') => Some('\u{215B}'),
            ('3', '8') => Some('\u{215C}'),
            ('5', '8') => Some('\u{215D}'),
            ('7', '8') => Some('\u{215E}'),
            ('1', '9') => Some('\u{2151}'),
            _ => None,
        }
    } else if num.len() == 1 && den.len() == 2 && num[0] == '1' && den[0] == '1' && den[1] == '0' {
        Some('\u{2152}')
    } else {
        None
    }
}

fn digits_only(s: &Vec<char>) -> (r: bool)
    ensures
        r == is_digit_seq(s@),
{
    if s.len() == 0 {
        return false;
    }
    let mut i: usize = 0;
    while i < s.len()
        invariant
            i <= s.len(),
            forall|j: int| 0 <= j < i ==> is_digit_char(s@[j]),
        decreases s.len() - i,
    {
        let c = s[i];
        if !('0' <= c && c <= '9') {
            return false;
        }
        i += 1;
    }
    true
}

/// Render a fraction from its numerator and denominator text under the two
/// fraction flags.
///
/// Decision order: a precomposed vulgar-fraction codepoint when `vulgar` is
/// set and the exact pair has one; else, when `script` is set and both
/// sides are nonempty digit runs, the numerator in superscript digits, the
/// fraction slash, and the denominator in subscript digits; else the plain
/// form `num/den` with every character unchanged. Digits are never
/// fabricated or dropped.
pub fn format_fraction(num: &Vec<char>, den: &Vec<char>, vulgar: bool, script: bool) -> (out: Vec<
    char,
>)
    ensures
        out@ == spec_format(num@, den@, vulgar, script),
{
    let mut out: Vec<char> = Vec::new();
    if vulgar {
        if let Some(g) = vulgar_lookup(num, den) {
            out.push(g);
            assert(out@ =~= seq![spec_vulgar(num@, den@)->Some_0]);
            return out;
        }
    }
    if script && digits_only(num) && digits_only(den) {
        let mut i: usize = 0;
        while i < num.len()
            invariant
                i <= num.len(),
                out@.len() == i,
                forall|j: int| 0 <= j < i ==> out@[j] == spec_sup_digit(num@[j]),
            decreases num.len() - i,
        {
            out.push(sup_digit(num[i]));
            i += 1;
        }
        out.push('\u{2044}');
        let mut k: usize = 0;
        while k < den.len()
            invariant
                k <= den.len(),
                out@.len() == num@.len() + 1 + k,
                forall|j: int| 0 <= j < num@.len() ==> out@[j] == spec_sup_digit(num@[j]),
                out@[num@.len() as int] == '\u{2044}',
                forall|j: int|
                    0 <= j < k ==> out@[num@.len() + 1 + j] == spec_sub_digit(den@[j]),
            decreases den.len() - k,
        {
            out.push(sub_digit(den[k]));
            k += 1;
        }
        assert(out@ =~= spec_sup_seq(num@) + seq!['\u{2044}'] + spec_sub_seq(den@));
        return out;
    }
    let mut i: usize = 0;
    while i < num.len()
        invariant
            i <= num.len(),
            out@ == num@.subrange(0, i as int),
        decreases num.len() - i,
    {
        out.push(num[i]);
        i += 1;
    }
    out.push('/');
    let mut k: usize = 0;
    while k < den.len()
        invariant
            k <= den.len(),
            out@ == num@ + seq!['/'] + den@.subrange(0, k as int),
        decreases den.len() - k,
    {
        out.push(den[k]);
        k += 1;
    }
    assert(out@ =~= num@ + seq!['/'] + den@);
    out
}

} // verus!
