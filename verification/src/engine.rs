//! The scanner and renderer: a single left-to-right pass over the input's
//! characters, with an explicit stack for bracketed groups.
//!
//! Letter runs are buffered and flushed as style markers or rendered words;
//! digit runs and a `/` between them form fractions; brackets open and
//! close groups whose delimiters follow the bracket policy; tone-capable
//! emoji take the configured modifier; everything else passes through.
//! Malformed input — an unterminated group or a fraction missing its
//! denominator — degrades to literal output, never an error.

use vstd::prelude::*;
use crate::bracket::spec_wrap;
use crate::bracket::wrap_group;
use crate::emoji::resolve_tone;
use crate::emoji::spec_resolve_tone;
use crate::emoji::spec_tone_capable;
use crate::emoji::tone_capable;
use crate::fraction::format_fraction;
use crate::fraction::is_digit_char;
use crate::fraction::spec_format;
use crate::keywords::any_kw_at;
use crate::keywords::lemma_kw_in_subrange;
use crate::keywords::lemma_no_kw_at_digit;
use crate::keywords::lemma_render_word_plain_id;
use crate::keywords::marker_style;
use crate::keywords::render_word;
use crate::keywords::spec_marker_style;
use crate::keywords::spec_render_word;
use crate::style::Style;
use crate::Tone;

verus! {

/// The four rendering options of one render call.
#[derive(Clone, Copy, PartialEq, Eq, Structural, Debug)]
pub struct Config {
    /// Omit bracket delimiters around a recognized group.
    pub strip_brackets: bool,
    /// Prefer precomposed vulgar-fraction glyphs when one exists.
    pub vulgar_fracs: bool,
    /// Prefer superscript/subscript digit composition for other fractions.
    pub script_fracs: bool,
    /// Skin tone appended to tone-capable emoji.
    pub skin_tone: Tone,
}

/// The configuration built from the four flags of the entry point.
pub open spec fn cfg_of(strip_brackets: bool, vulgar_fracs: bool, script_fracs: bool, skin_tone: Tone) -> Config {
    Config { strip_brackets, vulgar_fracs, script_fracs, skin_tone }
}

/// One open bracket group: its delimiter, the style active when it opened,
/// and the output accumulated before it opened.
#[verifier::ext_equal]
pub struct GFrame {
    /// The opening delimiter character.
    pub delim: char,
    /// The style to restore when the group closes.
    pub saved_style: Style,
    /// The output accumulated outside this group.
    pub outer: Seq<char>,
}

/// The scanner's whole state between two input characters.
#[verifier::ext_equal]
pub struct GState {
    /// Output accumulated inside the innermost open group.
    pub out: Seq<char>,
    /// One frame per open bracket group, innermost last.
    pub stack: Seq<GFrame>,
    /// The active letter style.
    pub style: Style,
    /// A buffered, not yet flushed letter run.
    pub word: Seq<char>,
    /// A buffered digit run, the numerator candidate.
    pub num: Seq<char>,
    /// Whether a `/` was read right after the buffered numerator.
    pub slash: bool,
    /// A buffered digit run after the slash, the denominator candidate.
    pub den: Seq<char>,
}

/// The scanner's state at the start of a render call: everything empty,
/// the style plain.
pub open spec fn spec_init() -> GState {
    GState {
        out: Seq::empty(),
        stack: Seq::empty(),
        style: Style::Plain,
        word: Seq::empty(),
        num: Seq::empty(),
        slash: false,
        den: Seq::empty(),
    }
}

/// Whether a character is an ASCII letter.
pub open spec fn is_letter(c: char) -> bool {
    ('a' <= c && c <= 'z') || ('A' <= c && c <= 'Z')
}

/// Whether a character opens a bracket group.
pub open spec fn is_open_delim(c: char) -> bool {
    c == '(' || c == '[' || c == '{'
}

/// Whether a character closes a bracket group.
pub open spec fn is_close_delim(c: char) -> bool {
    c == ')' || c == ']' || c == '}'
}

/// Whether a closing delimiter matches an opening one.
pub open spec fn delim_pair(open_d: char, close_d: char) -> bool {
    (open_d == '(' && close_d == ')') || (open_d == '[' && close_d == ']') || (open_d == '{'
        && close_d == '}')
}

/// Flush the buffered construct, if any, into the output.
///
/// A letter run that is a style marker selects its style and emits nothing;
/// any other letter run is rendered under the active style. A digit run
/// with slash and denominator is rendered by the fraction formatter; one
/// cut off mid-construct degrades to its literal characters (styled digits
/// and the slash as typed).
pub open spec fn spec_flush(st: GState, cfg: Config) -> GState {
    if st.word.len() > 0 {
        if spec_marker_style(st.word) is Some {
            GState { style: spec_marker_style(st.word)->Some_0, word: Seq::empty(), ..st }
        } else {
            GState { out: st.out + spec_render_word(st.word, st.style), word: Seq::empty(), ..st }
        }
    } else if st.num.len() > 0 {
        if st.slash && st.den.len() > 0 {
            GState {
                out: st.out + spec_format(st.num, st.den, cfg.vulgar_fracs, cfg.script_fracs),
                num: Seq::empty(),
                slash: false,
                den: Seq::empty(),
                ..st
            }
        } else if st.slash {
            GState {
                out: st.out + spec_render_word(st.num, st.style) + seq!['/'],
                num: Seq::empty(),
                slash: false,
                den: Seq::empty(),
                ..st
            }
        } else {
            GState {
                out: st.out + spec_render_word(st.num, st.style),
                num: Seq::empty(),
                slash: false,
                den: Seq::empty(),
                ..st
            }
        }
    } else {
        st
    }
}

/// Consume one input character.
///
/// Letters and digits extend the buffered run; a `/` right after a digit
/// run starts a fraction; any other character first flushes the buffer,
/// then opens or closes a group, resolves an emoji tone, or passes through.
pub open spec fn spec_step(st: GState, c: char, cfg: Config) -> GState {
    if is_letter(c) {
        if st.num.len() > 0 {
            GState { word: seq![c], ..spec_flush(st, cfg) }
        } else {
            GState { word: st.word.push(c), ..st }
        }
    } else if is_digit_char(c) {
        if st.word.len() > 0 {
            GState { word: st.word.push(c), ..st }
        } else if st.slash {
            GState { den: st.den.push(c), ..st }
        } else {
            GState { num: st.num.push(c), ..st }
        }
    } else if c == '/' && st.num.len() > 0 && !st.slash {
        GState { slash: true, ..st }
    } else {
        let st1 = spec_flush(st, cfg);
        if is_open_delim(c) {
            GState {
                out: Seq::empty(),
                stack: st1.stack.push(
                    GFrame { delim: c, saved_style: st1.style, outer: st1.out },
                ),
                ..st1
            }
        } else if is_close_delim(c) {
            if st1.stack.len() > 0 && delim_pair(st1.stack.last().delim, c) {
                GState {
                    out: st1.stack.last().outer + spec_wrap(
                        st1.stack.last().delim,
                        c,
                        st1.out,
                        cfg.strip_brackets,
                    ),
                    stack: st1.stack.drop_last(),
                    style: st1.stack.last().saved_style,
                    ..st1
                }
            } else {
                GState { out: st1.out.push(c), ..st1 }
            }
        } else if spec_tone_capable(c) {
            GState { out: st1.out + spec_resolve_tone(c, cfg.skin_tone), ..st1 }
        } else {
            GState { out: st1.out.push(c), ..st1 }
        }
    }
}

/// Reopen every group left unterminated at the end of the input: its
/// opening delimiter and its rendered content come out literally, in
/// original order.
pub open spec fn spec_unwind(stack: Seq<GFrame>, out: Seq<char>) -> Seq<char>
    decreases stack.len(),
{
    if stack.len() == 0 {
        out
    } else {
        spec_unwind(stack.drop_last(), stack.last().outer + seq![stack.last().delim] + out)
    }
}

/// Finish a render call: flush what is still buffered, then unwind the
/// unterminated groups.
pub open spec fn spec_finish(st: GState, cfg: Config) -> Seq<char> {
    spec_unwind(spec_flush(st, cfg).stack, spec_flush(st, cfg).out)
}

/// The scanner's state after the first `n` input characters.
pub open spec fn spec_run(s: Seq<char>, n: int, cfg: Config) -> GState
    decreases n,
{
    if n <= 0 {
        spec_init()
    } else {
        spec_step(spec_run(s, n - 1, cfg), s[n - 1], cfg)
    }
}

/// What one render call emits for an input under a configuration: the
/// state machine run over every character, then finished.
pub open spec fn spec_convert(s: Seq<char>, cfg: Config) -> Seq<char> {
    spec_finish(spec_run(s, s.len() as int, cfg), cfg)
}

struct Frame {
    delim: char,
    saved_style: Style,
    outer: Vec<char>,
}

impl View for Frame {
    type V = GFrame;

    closed spec fn view(&self) -> GFrame {
        GFrame { delim: self.delim, saved_style: self.saved_style, outer: self.outer@ }
    }
}

struct St {
    out: Vec<char>,
    stack: Vec<Frame>,
    style: Style,
    word: Vec<char>,
    num: Vec<char>,
    slash: bool,
    den: Vec<char>,
}

impl View for St {
    type V = GState;

    closed spec fn view(&self) -> GState {
        GState {
            out: self.out@,
            stack: Seq::new(self.stack@.len(), |i: int| self.stack@[i]@),
            style: self.style,
            word: self.word@,
            num: self.num@,
            slash: self.slash,
            den: self.den@,
        }
    }
}

fn st_flush(st: &mut St, cfg: Config)
    ensures
        final(st)@ == spec_flush(old(st)@, cfg),
{
    if st.word.len() > 0 {
        match marker_style(&st.word) {
            Option::Some(sty) => {
                st.style = sty;
                st.word.clear();
            },
            Option::None => {
                let mut r = render_word(&st.word, st.style);
                st.out.append(&mut r);
                st.word.clear();
            },
        }
    } else if st.num.len() > 0 {
        if st.slash && st.den.len() > 0 {
            let mut r = format_fraction(&st.num, &st.den, cfg.vulgar_fracs, cfg.script_fracs);
            st.out.append(&mut r);
        } else if st.slash {
            let mut r = render_word(&st.num, st.style);
            st.out.append(&mut r);
            st.out.push('/');
        } else {
            let mut r = render_word(&st.num, st.style);
            st.out.append(&mut r);
        }
        st.num.clear();
        st.slash = false;
        st.den.clear();
    }
    assert(st@ =~~= spec_flush(old(st)@, cfg));
}

fn delim_matches(open_d: char, close_d: char) -> (r: bool)
    ensures
        r == delim_pair(open_d, close_d),
{
    (open_d == '(' && close_d == ')') || (open_d == '[' && close_d == ']') || (open_d == '{'
        && close_d == '}')
}

fn st_step(st: &mut St, c: char, cfg: Config)
    ensures
        final(st)@ == spec_step(old(st)@, c, cfg),
{
    if ('a' <= c && c <= 'z') || ('A' <= c && c <= 'Z') {
        if st.num.len() > 0 {
            st_flush(st, cfg);
            st.word.push(c);
        } else {
            st.word.push(c);
        }
        assert(st@ =~~= spec_step(old(st)@, c, cfg));
    } else if '0' <= c && c <= '9' {
        if st.word.len() > 0 {
            st.word.push(c);
        } else if st.slash {
            st.den.push(c);
        } else {
            st.num.push(c);
        }
        assert(st@ =~~= spec_step(old(st)@, c, cfg));
    } else if c == '/' && st.num.len() > 0 && !st.slash {
        st.slash = true;
        assert(st@ =~~= spec_step(old(st)@, c, cfg));
    } else {
        st_flush(st, cfg);
        if c == '(' || c == '[' || c == '{' {
            let mut tmp: Vec<char> = Vec::new();
            core::mem::swap(&mut st.out, &mut tmp);
            let sty = st.style;
            st.stack.push(Frame { delim: c, saved_style: sty, outer: tmp });
            assert(st@ =~~= spec_step(old(st)@, c, cfg));
        } else if c == ')' || c == ']' || c == '}' {
            let n = st.stack.len();
            let mut matched = false;
            if n > 0 {
                let top_delim = st.stack[n - 1].delim;
                matched = delim_matches(top_delim, c);
            }
            if matched {
                match st.stack.pop() {
                    Option::Some(fr) => {
                        let mut wrapped = wrap_group(fr.delim, c, &st.out, cfg.strip_brackets);
                        st.out = fr.outer;
                        st.out.append(&mut wrapped);
                        st.style = fr.saved_style;
                    },
                    Option::None => {
                        proof {
                            assert(false);
                        }
                    },
                }
            } else {
                st.out.push(c);
            }
            assert(st@ =~~= spec_step(old(st)@, c, cfg));
        } else if tone_capable(c) {
            let mut r = resolve_tone(c, cfg.skin_tone);
            st.out.append(&mut r);
            assert(st@ =~~= spec_step(old(st)@, c, cfg));
        } else {
            st.out.push(c);
            assert(st@ =~~= spec_step(old(st)@, c, cfg));
        }
    }
}

fn st_finish(st: St, cfg: Config) -> (out: Vec<char>)
    ensures
        out@ == spec_finish(st@, cfg),
{
    let mut st = st;
    let ghost entry = st@;
    st_flush(&mut st, cfg);
    let ghost flushed = st@;
    while st.stack.len() > 0
        invariant
            spec_unwind(st@.stack, st@.out) == spec_unwind(flushed.stack, flushed.out),
        decreases st.stack.len(),
    {
        let ghost before = st@;
        match st.stack.pop() {
            Option::Some(fr) => {
                let mut o = fr.outer;
                o.push(fr.delim);
                o.append(&mut st.out);
                st.out = o;
            },
            Option::None => {
                proof {
                    assert(false);
                }
            },
        }
        proof {
            assert(st@.stack =~~= before.stack.drop_last());
            assert(st@.out =~= before.stack.last().outer + seq![before.stack.last().delim]
                + before.out);
        }
    }
    st.out
}

/// Render a whole input, given as its characters, under a configuration.
///
/// This is the inline renderer's engine: one pass, left to right, over the
/// input's Unicode scalar values. It is total — every input yields an
/// output, with malformed constructs passed through literally.
pub fn convert_chars(inp: &Vec<char>, cfg: Config) -> (out: Vec<char>)
    ensures
        out@ == spec_convert(inp@, cfg),
{
    let mut st = St {
        out: Vec::new(),
        stack: Vec::new(),
        style: Style::Plain,
        word: Vec::new(),
        num: Vec::new(),
        slash: false,
        den: Vec::new(),
    };
    assert(st@ =~~= spec_init());
    let mut i: usize = 0;
    while i < inp.len()
        invariant
            i <= inp.len(),
            st@ == spec_run(inp@, i as int, cfg),
        decreases inp.len() - i,
    {
        st_step(&mut st, inp[i], cfg);
        i += 1;
        proof {
            assert(spec_run(inp@, i as int, cfg) == spec_step(
                spec_run(inp@, i - 1, cfg),
                inp@[i - 1],
                cfg,
            ));
        }
    }
    st_finish(st, cfg)
}


/// The plain configuration: all flags off and the default tone.
pub open spec fn plain_cfg() -> Config {
    cfg_of(false, false, false, Tone::Default)
}

/// Whether no symbol keyword starts anywhere in an input.
pub open spec fn keyword_free(s: Seq<char>) -> bool {
    forall|i: int| 0 <= i < s.len() ==> !any_kw_at(s, i)
}

/// Whether no contiguous part of an input is a style marker.
pub open spec fn marker_free(s: Seq<char>) -> bool {
    forall|a: int, b: int| 0 <= a <= b <= s.len() ==> spec_marker_style(s.subrange(a, b)) is None
}

/// Whether every character of a run is an ASCII digit.
pub open spec fn all_digits(w: Seq<char>) -> bool {
    forall|k: int| 0 <= k < w.len() ==> is_digit_char(w[k])
}

/// The input characters a stack of open groups stands for: each group's
/// outer output followed by its opening delimiter, bottom first.
pub open spec fn stack_flat(stack: Seq<GFrame>) -> Seq<char>
    decreases stack.len(),
{
    if stack.len() == 0 {
        Seq::empty()
    } else {
        stack_flat(stack.drop_last()) + stack.last().outer + seq![stack.last().delim]
    }
}

/// Everything a state stands for, in input order: the open groups, the
/// current output, and the buffered letter or fraction run.
pub open spec fn spec_flat(st: GState) -> Seq<char> {
    stack_flat(st.stack) + st.out + st.word + st.num + (if st.slash {
        seq!['/']
    } else {
        Seq::empty()
    }) + st.den
}

/// Unwinding a stack onto an output emits exactly the flattened stack
/// followed by the output.
pub proof fn lemma_unwind_flat(stack: Seq<GFrame>, out: Seq<char>)
    ensures
        spec_unwind(stack, out) == stack_flat(stack) + out,
    decreases stack.len(),
{
    if stack.len() == 0 {
        assert(stack_flat(stack) + out =~= out);
    } else {
        lemma_unwind_flat(stack.drop_last(), stack.last().outer + seq![stack.last().delim] + out);
        assert(stack_flat(stack.drop_last()) + (stack.last().outer + seq![stack.last().delim]
            + out) =~= stack_flat(stack) + out);
    }
}

/// The facts the round-trip induction carries about a reachable state
/// under the plain configuration: the state flattens to the consumed
/// prefix, the style is still plain, the buffered word is the letter run
/// just read, and the fraction buffers hold digits only.
pub open spec fn rt_inv(s: Seq<char>, n: int, st: GState) -> bool {
    &&& spec_flat(st) == s.take(n)
    &&& st.style == Style::Plain
    &&& (forall|j: int| 0 <= j < st.stack.len() ==> st.stack[j].saved_style == Style::Plain)
    &&& st.word.len() <= n
    &&& st.word == s.subrange(n - st.word.len(), n)
    &&& all_digits(st.num)
    &&& all_digits(st.den)
    &&& (st.word.len() > 0 ==> st.num.len() == 0 && !st.slash && st.den.len() == 0)
    &&& (st.den.len() > 0 ==> st.slash)
    &&& (st.slash ==> st.num.len() > 0)
}

proof fn lemma_rt_flush(s: Seq<char>, n: int, st: GState)
    requires
        keyword_free(s),
        marker_free(s),
        0 <= n <= s.len(),
        rt_inv(s, n, st),
    ensures
        ({
            let f = spec_flush(st, plain_cfg());
            &&& f.stack == st.stack
            &&& f.style == Style::Plain
            &&& f.word.len() == 0
            &&& f.num.len() == 0
            &&& !f.slash
            &&& f.den.len() == 0
            &&& f.out == st.out + st.word + st.num + (if st.slash {
                seq!['/']
            } else {
                Seq::empty()
            }) + st.den
        }),
{
    let f = spec_flush(st, plain_cfg());
    if st.word.len() > 0 {
        let a = n - st.word.len();
        assert(spec_marker_style(s.subrange(a, n)) is None);
        assert forall|p: int| 0 <= p < st.word.len() implies !any_kw_at(st.word, p) by {
            if any_kw_at(st.word, p) {
                lemma_kw_in_subrange(s, a, n, p);
            }
        }
        lemma_render_word_plain_id(st.word);
        assert(f.out =~= st.out + st.word + st.num + (if st.slash {
            seq!['/']
        } else {
            Seq::empty()
        }) + st.den);
    } else if st.num.len() > 0 {
        assert forall|p: int| 0 <= p < st.num.len() implies !any_kw_at(st.num, p) by {
            lemma_no_kw_at_digit(st.num, p);
        }
        lemma_render_word_plain_id(st.num);
        if st.slash && st.den.len() > 0 {
            assert(f.out =~= st.out + st.word + st.num + seq!['/'] + st.den);
        } else if st.slash {
            assert(f.out =~= st.out + st.word + st.num + seq!['/'] + st.den);
        } else {
            assert(f.out =~= st.out + st.word + st.num + Seq::<char>::empty() + st.den);
        }
    } else {
        assert(f.out =~= st.out + st.word + st.num + (if st.slash {
            seq!['/']
        } else {
            Seq::empty()
        }) + st.den);
    }
}

#[verifier::rlimit(100)]
proof fn lemma_rt_run(s: Seq<char>, n: int)
    requires
        keyword_free(s),
        marker_free(s),
        0 <= n <= s.len(),
    ensures
        rt_inv(s, n, spec_run(s, n, plain_cfg())),
    decreases n,
{
    let cfg = plain_cfg();
    if n <= 0 {
        let st = spec_run(s, n, cfg);
        assert(spec_flat(st) =~= s.take(0));
        assert(st.word =~= s.subrange(0, 0));
    } else {
        lemma_rt_run(s, n - 1);
        let prev = spec_run(s, n - 1, cfg);
        let c = s[n - 1];
        let cur = spec_run(s, n, cfg);
        assert(cur == spec_step(prev, c, cfg));
        assert(s.take(n) =~= s.take(n - 1) + seq![c]);
        if is_letter(c) {
            if prev.num.len() > 0 {
                lemma_rt_flush(s, n - 1, prev);
                let f = spec_flush(prev, cfg);
                assert(spec_flat(f) =~= spec_flat(prev));
                assert(spec_flat(cur) =~= spec_flat(f) + seq![c]);
                assert(cur.word =~= s.subrange(n - 1, n));
            } else {
                assert(spec_flat(cur) =~= spec_flat(prev) + seq![c]);
                assert(cur.word =~= s.subrange(n - cur.word.len(), n));
            }
        } else if is_digit_char(c) {
            if prev.word.len() > 0 {
                assert(spec_flat(cur) =~= spec_flat(prev) + seq![c]);
                assert(cur.word =~= s.subrange(n - cur.word.len(), n));
            } else if prev.slash {
                assert(spec_flat(cur) =~= spec_flat(prev) + seq![c]);
                assert(cur.word =~= s.subrange(n, n));
            } else {
                assert(cur.den.len() == 0);
                assert(spec_flat(cur) =~= spec_flat(prev) + seq![c]);
                assert(cur.word =~= s.subrange(n, n));
            }
        } else if c == '/' && prev.num.len() > 0 && !prev.slash {
            assert(prev.den.len() == 0);
            assert(spec_flat(cur) =~= spec_flat(prev) + seq![c]);
            assert(cur.word =~= s.subrange(n, n));
        } else {
            lemma_rt_flush(s, n - 1, prev);
            let f = spec_flush(prev, cfg);
            assert(spec_flat(f) =~= spec_flat(prev));
            if is_open_delim(c) {
                assert(cur.stack.last() == GFrame { delim: c, saved_style: Style::Plain, outer: f.out });
                assert(cur.stack.drop_last() =~= f.stack);
                assert(stack_flat(cur.stack) =~= stack_flat(f.stack) + f.out + seq![c]);
                assert(spec_flat(cur) =~= spec_flat(f) + seq![c]);
                assert(cur.word =~= s.subrange(n, n));
            } else if is_close_delim(c) {
                if f.stack.len() > 0 && delim_pair(f.stack.last().delim, c) {
                    let fr = f.stack.last();
                    assert(stack_flat(f.stack) =~= stack_flat(f.stack.drop_last()) + fr.outer
                        + seq![fr.delim]);
                    assert(cur.out =~= fr.outer + seq![fr.delim] + f.out + seq![c]);
                    assert(spec_flat(cur) =~= spec_flat(f) + seq![c]);
                    assert(cur.word =~= s.subrange(n, n));
                } else {
                    assert(spec_flat(cur) =~= spec_flat(f) + seq![c]);
                    assert(cur.word =~= s.subrange(n, n));
                }
            } else if spec_tone_capable(c) {
                assert(spec_resolve_tone(c, Tone::Default) =~= seq![c]);
                assert(spec_flat(cur) =~= spec_flat(f) + seq![c]);
                assert(cur.word =~= s.subrange(n, n));
            } else {
                assert(spec_flat(cur) =~= spec_flat(f) + seq![c]);
                assert(cur.word =~= s.subrange(n, n));
            }
        }
    }
}

/// Round trip: with all flags off and the default tone, an input in which
/// no symbol keyword starts anywhere and no contiguous part is a style
/// marker renders to itself, character for character — including inputs
/// that end in the middle of a fraction or bracket group.
pub proof fn lemma_round_trip(s: Seq<char>)
    requires
        keyword_free(s),
        marker_free(s),
    ensures
        spec_convert(s, cfg_of(false, false, false, Tone::Default)) == s,
{
    let cfg = plain_cfg();
    let n = s.len() as int;
    lemma_rt_run(s, n);
    let fin = spec_run(s, n, cfg);
    lemma_rt_flush(s, n, fin);
    let f = spec_flush(fin, cfg);
    lemma_unwind_flat(f.stack, f.out);
    assert(spec_flat(f) =~= spec_flat(fin));
    assert(stack_flat(f.stack) + f.out =~= spec_flat(f));
    assert(s.take(n) =~= s);
}


proof fn lemma_tone_run(
    s: Seq<char>,
    n: int,
    cfg1: Config,
    cfg2: Config,
)
    requires
        0 <= n <= s.len(),
        cfg1.strip_brackets == cfg2.strip_brackets,
        cfg1.vulgar_fracs == cfg2.vulgar_fracs,
        cfg1.script_fracs == cfg2.script_fracs,
        forall|i: int| 0 <= i < s.len() ==> !spec_tone_capable(s[i]),
    ensures
        spec_run(s, n, cfg1) == spec_run(s, n, cfg2),
    decreases n,
{
    if n > 0 {
        lemma_tone_run(s, n - 1, cfg1, cfg2);
        let prev = spec_run(s, n - 1, cfg1);
        let c = s[n - 1];
        assert(!spec_tone_capable(c));
        assert(spec_flush(prev, cfg1) =~~= spec_flush(prev, cfg2));
        assert(spec_step(prev, c, cfg1) =~~= spec_step(prev, c, cfg2));
    }
}

/// The skin tone setting is immaterial to an input with no tone-capable
/// emoji in it: under any two tones, with the other three options equal,
/// such an input renders to the same output.
pub proof fn lemma_tone_immaterial(
    s: Seq<char>,
    strip_brackets: bool,
    vulgar_fracs: bool,
    script_fracs: bool,
    t1: Tone,
    t2: Tone,
)
    requires
        forall|i: int| 0 <= i < s.len() ==> !spec_tone_capable(s[i]),
    ensures
        spec_convert(s, cfg_of(strip_brackets, vulgar_fracs, script_fracs, t1)) == spec_convert(
            s,
            cfg_of(strip_brackets, vulgar_fracs, script_fracs, t2),
        ),
{
    let cfg1 = cfg_of(strip_brackets, vulgar_fracs, script_fracs, t1);
    let cfg2 = cfg_of(strip_brackets, vulgar_fracs, script_fracs, t2);
    lemma_tone_run(s, s.len() as int, cfg1, cfg2);
    let fin = spec_run(s, s.len() as int, cfg1);
    assert(spec_flush(fin, cfg1) =~~= spec_flush(fin, cfg2));
}


proof fn lemma_ufrac_run(s: Seq<char>, d: Seq<char>, n: int, cfg: Config)
    requires
        s == d + seq!['/'],
        all_digits(d),
        0 <= n <= d.len(),
    ensures
        ({
            let st = spec_run(s, n, cfg);
            &&& st.out.len() == 0
            &&& st.stack.len() == 0
            &&& st.style == Style::Plain
            &&& st.word.len() == 0
            &&& st.num == d.take(n)
            &&& !st.slash
            &&& st.den.len() == 0
        }),
    decreases n,
{
    if n <= 0 {
        assert(spec_run(s, n, cfg).num =~= d.take(0));
    } else {
        lemma_ufrac_run(s, d, n - 1, cfg);
        assert(s[n - 1] == d[n - 1]);
        assert(is_digit_char(d[n - 1]));
        assert(spec_run(s, n, cfg).num =~= d.take(n));
    }
}

/// An input that ends in the middle of a fraction — a digit run followed
/// by a bare slash — renders to itself under every configuration: the
/// formatter never fires on the incomplete construct and no character is
/// lost.
pub proof fn lemma_unterminated_fraction(d: Seq<char>, cfg: Config)
    requires
        d.len() > 0,
        all_digits(d),
    ensures
        spec_convert(d + seq!['/'], cfg) == d + seq!['/'],
{
    let s = d + seq!['/'];
    let n = s.len() as int;
    lemma_ufrac_run(s, d, n - 1, cfg);
    let prev = spec_run(s, n - 1, cfg);
    assert(d.take(n - 1) =~= d);
    assert(s[n - 1] == '/');
    let fin = spec_run(s, n, cfg);
    assert(fin == spec_step(prev, '/', cfg));
    assert(fin.slash);
    assert forall|p: int| 0 <= p < fin.num.len() implies !any_kw_at(fin.num, p) by {
        lemma_no_kw_at_digit(fin.num, p);
    }
    lemma_render_word_plain_id(fin.num);
    let f = spec_flush(fin, cfg);
    lemma_unwind_flat(f.stack, f.out);
    assert(stack_flat(f.stack) =~= Seq::empty());
    assert(spec_convert(s, cfg) =~= d + seq!['/']);
}


proof fn lemma_ubrack_run(s: Seq<char>, o: char, d: Seq<char>, n: int, cfg: Config)
    requires
        s == seq![o] + d,
        is_open_delim(o),
        all_digits(d),
        1 <= n <= s.len(),
    ensures
        ({
            let st = spec_run(s, n, cfg);
            &&& st.out.len() == 0
            &&& st.stack =~= seq![GFrame { delim: o, saved_style: Style::Plain, outer: Seq::empty() }]
            &&& st.style == Style::Plain
            &&& st.word.len() == 0
            &&& st.num == d.take(n - 1)
            &&& !st.slash
            &&& st.den.len() == 0
        }),
    decreases n,
{
    if n == 1 {
        assert(s[0] == o);
        assert(spec_run(s, 0, cfg) == spec_init());
        assert(spec_flush(spec_init(), cfg) == spec_init());
        assert(spec_run(s, 1, cfg).num =~= d.take(0));
    } else {
        lemma_ubrack_run(s, o, d, n - 1, cfg);
        assert(s[n - 1] == d[n - 2]);
        assert(is_digit_char(d[n - 2]));
        assert(spec_run(s, n, cfg).num =~= d.take(n - 1));
    }
}

/// An input that ends inside an unterminated bracket group — an opening
/// delimiter followed by a digit run — renders to itself under every
/// configuration: the opener is not stripped and nothing after it is
/// lost.
pub proof fn lemma_unterminated_bracket(o: char, d: Seq<char>, cfg: Config)
    requires
        is_open_delim(o),
        all_digits(d),
    ensures
        spec_convert(seq![o] + d, cfg) == seq![o] + d,
{
    let s = seq![o] + d;
    let n = s.len() as int;
    lemma_ubrack_run(s, o, d, n, cfg);
    let fin = spec_run(s, n, cfg);
    assert(d.take(n - 1) =~= d);
    assert forall|p: int| 0 <= p < fin.num.len() implies !any_kw_at(fin.num, p) by {
        lemma_no_kw_at_digit(fin.num, p);
    }
    lemma_render_word_plain_id(fin.num);
    let f = spec_flush(fin, cfg);
    lemma_unwind_flat(f.stack, f.out);
    assert(f.stack.drop_last() =~= Seq::<GFrame>::empty());
    assert(f.stack.last() == GFrame { delim: o, saved_style: Style::Plain, outer: Seq::empty() });
    assert(stack_flat(f.stack.drop_last()) =~= Seq::<char>::empty());
    assert(stack_flat(f.stack) =~= seq![o]);
    assert(spec_convert(s, cfg) =~= seq![o] + d);
}

} // verus!
