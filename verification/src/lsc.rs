use crate::style::Color;
use crate::style::Style;
use crate::text::code_of;
use crate::text::digits_val;
use crate::text::find_char;
use crate::text::lemma_capped_small;
use crate::text::parse_code;
use vstd::prelude::*;

verus! {

// ---------------------------------------------------------------------------
// One numeric style code
// ---------------------------------------------------------------------------

/// The classic palette colour for an offset 0 to 7 within a colour block.
pub open spec fn named_color(n: nat) -> Color {
    if n == 0 {
        Color::Black
    } else if n == 1 {
        Color::Red
    } else if n == 2 {
        Color::Green
    } else if n == 3 {
        Color::Yellow
    } else if n == 4 {
        Color::Blue
    } else if n == 5 {
        Color::Purple
    } else if n == 6 {
        Color::Cyan
    } else {
        Color::White
    }
}

fn basic_color(idx: u32) -> (r: Color)
    requires
        idx <= 7,
    ensures
        r == named_color(idx as nat),
{
    if idx == 0 {
        Color::Black
    } else if idx == 1 {
        Color::Red
    } else if idx == 2 {
        Color::Green
    } else if idx == 3 {
        Color::Yellow
    } else if idx == 4 {
        Color::Blue
    } else if idx == 5 {
        Color::Purple
    } else if idx == 6 {
        Color::Cyan
    } else {
        Color::White
    }
}

/// Effect of a single token outside the two extended-colour forms: the eight
/// attribute codes, the classic foreground and background blocks, and their
/// bright variants, which sit in the upper half of the fixed palette.
/// Anything else, a non-numeric token included, changes nothing.
pub open spec fn apply_simple_code(st: Style, t: Seq<char>) -> Style {
    match code_of(t) {
        None => st,
        Some(n) => {
            if n == 1 {
                Style { is_bold: true, ..st }
            } else if n == 2 {
                Style { is_dimmed: true, ..st }
            } else if n == 3 {
                Style { is_italic: true, ..st }
            } else if n == 4 {
                Style { is_underline: true, ..st }
            } else if n == 5 {
                Style { is_blink: true, ..st }
            } else if n == 7 {
                Style { is_reverse: true, ..st }
            } else if n == 8 {
                Style { is_hidden: true, ..st }
            } else if n == 9 {
                Style { is_strikethrough: true, ..st }
            } else if 30 <= n <= 37 {
                Style { foreground: Some(named_color((n - 30) as nat)), ..st }
            } else if 40 <= n <= 47 {
                Style { background: Some(named_color((n - 40) as nat)), ..st }
            } else if 90 <= n <= 97 {
                Style { foreground: Some(Color::Fixed((n - 90 + 8) as u8)), ..st }
            } else if 100 <= n <= 107 {
                Style { background: Some(Color::Fixed((n - 100 + 8) as u8)), ..st }
            } else {
                st
            }
        },
    }
}

fn apply_simple(st: Style, t: &Vec<char>) -> (r: Style)
    ensures
        r == apply_simple_code(st, t@),
{
    match parse_code(t) {
        None => st,
        Some(v) => {
            proof {
                if v < 100000 {
                    lemma_capped_small(digits_val(t@), v as nat);
                } else {
                    assert(digits_val(t@) >= 100000);
                }
            }
            if v == 1 {
                st.bold()
            } else if v == 2 {
                st.dimmed()
            } else if v == 3 {
                st.italic()
            } else if v == 4 {
                st.underline()
            } else if v == 5 {
                st.blink()
            } else if v == 7 {
                st.reverse()
            } else if v == 8 {
                st.hidden()
            } else if v == 9 {
                st.strikethrough()
            } else if 30 <= v && v <= 37 {
                st.fg(basic_color(v - 30))
            } else if 40 <= v && v <= 47 {
                st.on(basic_color(v - 40))
            } else if 90 <= v && v <= 97 {
                st.fg(Color::Fixed((v - 82) as u8))
            } else if 100 <= v && v <= 107 {
                st.on(Color::Fixed((v - 92) as u8))
            } else {
                st
            }
        },
    }
}

/// A token's value as a palette index, when it is a number not above 255.
pub open spec fn u8_of(t: Seq<char>) -> Option<u8> {
    match code_of(t) {
        None => None,
        Some(n) => if n <= 255 {
            Some(n as u8)
        } else {
            None
        },
    }
}

fn parse_u8(t: &Vec<char>) -> (r: Option<u8>)
    ensures
        r == u8_of(t@),
{
    match parse_code(t) {
        None => None,
        Some(v) => {
            proof {
                if v < 100000 {
                    lemma_capped_small(digits_val(t@), v as nat);
                } else {
                    assert(digits_val(t@) >= 100000);
                }
            }
            if v <= 255 {
                Some(v as u8)
            } else {
                None
            }
        },
    }
}

/// Whether the token is the decimal number `n`.
fn is_code(t: &Vec<char>, n: u32) -> (r: bool)
    requires
        n < 100000,
    ensures
        r == (code_of(t@) == Some(n as nat)),
{
    match parse_code(t) {
        None => false,
        Some(v) => {
            proof {
                if v < 100000 {
                    lemma_capped_small(digits_val(t@), v as nat);
                } else {
                    assert(digits_val(t@) >= 100000);
                }
            }
            v == n
        },
    }
}

// ---------------------------------------------------------------------------
// A whole `;`-separated code sequence
// ---------------------------------------------------------------------------

/// The colour set by an extended form, on the foreground when `fg` holds and
/// on the background otherwise.
pub open spec fn with_colour(st: Style, fg: bool, c: Color) -> Style {
    if fg {
        Style { foreground: Some(c), ..st }
    } else {
        Style { background: Some(c), ..st }
    }
}

/// Best-effort interpretation of the tokens from position `i` on. The
/// introducers 38 and 48 try the 256-colour form `5;N` and then the
/// true-colour form `2;R;G;B`; when neither fits, the introducer alone is
/// skipped and scanning resumes at the next token. Every other token is a
/// simple code.
pub open spec fn apply_codes_from(st: Style, toks: Seq<Seq<char>>, i: int) -> Style
    decreases toks.len() - i,
{
    if i < 0 || i >= toks.len() {
        st
    } else {
        let t = toks[i];
        if code_of(t) == Some(38 as nat) || code_of(t) == Some(48 as nat) {
            let fg = code_of(t) == Some(38 as nat);
            if i + 2 < toks.len() && code_of(toks[i + 1]) == Some(5 as nat) && u8_of(
                toks[i + 2],
            ) is Some {
                apply_codes_from(
                    with_colour(st, fg, Color::Fixed(u8_of(toks[i + 2])->Some_0)),
                    toks,
                    i + 3,
                )
            } else if i + 4 < toks.len() && code_of(toks[i + 1]) == Some(2 as nat) && u8_of(
                toks[i + 2],
            ) is Some && u8_of(toks[i + 3]) is Some && u8_of(toks[i + 4]) is Some {
                apply_codes_from(
                    with_colour(
                        st,
                        fg,
                        Color::Rgb(
                            u8_of(toks[i + 2])->Some_0,
                            u8_of(toks[i + 3])->Some_0,
                            u8_of(toks[i + 4])->Some_0,
                        ),
                    ),
                    toks,
                    i + 5,
                )
            } else {
                apply_codes_from(st, toks, i + 1)
            }
        } else {
            apply_codes_from(apply_simple_code(st, t), toks, i + 1)
        }
    }
}

/// The style a `;`-separated code sequence denotes. Unrecognized and
/// malformed codes are ignored individually; an empty or fully-unrecognized
/// sequence denotes the plain style.
pub open spec fn spec_style_of(value: Seq<char>) -> Style {
    apply_codes_from(Style::spec_plain(), crate::text::split_char(value, ';'), 0)
}

/// Parse a `;`-separated code sequence into a style. This never fails: what
/// cannot be understood is skipped.
pub fn style_of_value(value: &Vec<char>) -> (r: Style)
    ensures
        r == spec_style_of(value@),
{
    let toks = crate::text::vec_split_char(value, ';');
    let ghost stoks = crate::text::split_char(value@, ';');
    let n = toks.len();
    let mut st = Style::plain();
    let mut i: usize = 0;
    while i < n
        invariant
            n == toks@.len(),
            n == stoks.len(),
            forall|k: int| 0 <= k < n ==> (#[trigger] toks@[k])@ == stoks[k],
            i <= n,
            apply_codes_from(Style::spec_plain(), stoks, 0) == apply_codes_from(st, stoks, i as int),
        decreases n - i,
    {
        let t38 = is_code(&toks[i], 38);
        let t48 = is_code(&toks[i], 48);
        if t38 || t48 {
            let fixed_form = n - i > 2 && is_code(&toks[i + 1], 5) && parse_u8(
                &toks[i + 2],
            ).is_some();
            let rgb_form = !fixed_form && n - i > 4 && is_code(&toks[i + 1], 2) && parse_u8(
                &toks[i + 2],
            ).is_some() && parse_u8(&toks[i + 3]).is_some() && parse_u8(&toks[i + 4]).is_some();
            if fixed_form {
                let cn = parse_u8(&toks[i + 2]).unwrap();
                let c = Color::Fixed(cn);
                st = if t38 {
                    st.fg(c)
                } else {
                    st.on(c)
                };
                i = i + 3;
            } else if rgb_form {
                let r = parse_u8(&toks[i + 2]).unwrap();
                let g = parse_u8(&toks[i + 3]).unwrap();
                let b = parse_u8(&toks[i + 4]).unwrap();
                let c = Color::Rgb(r, g, b);
                st = if t38 {
                    st.fg(c)
                } else {
                    st.on(c)
                };
                i = i + 5;
            } else {
                i = i + 1;
            }
        } else {
            st = apply_simple(st, &toks[i]);
            i = i + 1;
        }
    }
    st
}

// ---------------------------------------------------------------------------
// Key/value pairs of a specification string
// ---------------------------------------------------------------------------

/// One `key=value` pair, already cut out of a specification string.
pub struct Pair {
    pub key: Vec<char>,
    pub value: Vec<char>,
}

/// A segment's key and value: the text before the first `=` and the text
/// after it. A segment without `=` carries no pair.
pub open spec fn pair_of(seg: Seq<char>) -> Option<(Seq<char>, Seq<char>)> {
    match find_char(seg, '=') {
        None => None,
        Some(i) => if i < seg.len() {
            Some((seg.subrange(0, i as int), seg.subrange(i as int + 1, seg.len() as int)))
        } else {
            None
        },
    }
}

/// The pairs carried by the segments from position `i` on, in order.
pub open spec fn pairs_of_segs(segs: Seq<Seq<char>>, i: int) -> Seq<(Seq<char>, Seq<char>)>
    decreases segs.len() - i,
{
    if i < 0 || i >= segs.len() {
        seq![]
    } else {
        match pair_of(segs[i]) {
            None => pairs_of_segs(segs, i + 1),
            Some(p) => seq![p] + pairs_of_segs(segs, i + 1),
        }
    }
}

/// The `key=value` pairs of a whole `:`-separated specification string, in
/// left-to-right order.
pub open spec fn pairs_of(s: Seq<char>) -> Seq<(Seq<char>, Seq<char>)> {
    pairs_of_segs(crate::text::split_char(s, ':'), 0)
}

/// Cut a specification string into its `key=value` pairs, left to right.
/// Segments without `=` are dropped.
pub fn pairs_of_var(s: &Vec<char>) -> (r: Vec<Pair>)
    ensures
        r@.len() == pairs_of(s@).len(),
        forall|i: int|
            0 <= i < r@.len() ==> (#[trigger] r@[i]).key@ == pairs_of(s@)[i].0 && r@[i].value@
                == pairs_of(s@)[i].1,
{
    let segs = crate::text::vec_split_char(s, ':');
    let ghost ssegs = crate::text::split_char(s@, ':');
    let n = segs.len();
    let mut out: Vec<Pair> = Vec::new();
    let mut j: usize = 0;
    while j < n
        invariant
            n == segs@.len(),
            n == ssegs.len(),
            forall|k: int| 0 <= k < n ==> (#[trigger] segs@[k])@ == ssegs[k],
            j <= n,
            pairs_of(s@) == pairs_of_segs(ssegs, 0),
            pairs_of_segs(ssegs, 0).len() == out@.len() + pairs_of_segs(ssegs, j as int).len(),
            forall|k: int|
                0 <= k < out@.len() ==> (#[trigger] out@[k]).key@ == pairs_of_segs(ssegs, 0)[k].0
                    && out@[k].value@ == pairs_of_segs(ssegs, 0)[k].1,
            forall|k: int|
                0 <= k < pairs_of_segs(ssegs, j as int).len() ==> #[trigger] pairs_of_segs(
                    ssegs,
                    j as int,
                )[k] == pairs_of_segs(ssegs, 0)[k + out@.len()],
        decreases n - j,
    {
        let seg = &segs[j];
        match crate::text::vec_find_char(seg, 0, '=') {
            Some(e) => {
                proof {
                    crate::text::lemma_find_char_is(ssegs[j as int], '=', e as int);
                    assert(pairs_of_segs(ssegs, j as int) == seq![
                        pair_of(ssegs[j as int])->Some_0,
                    ] + pairs_of_segs(ssegs, j as int + 1));
                }
                let sl = seg.len();
                let key = crate::text::vec_subrange(seg, 0, e);
                let value = crate::text::vec_subrange(seg, e + 1, sl);
                out.push(Pair { key, value });
                proof {
                    let ghost base = pairs_of_segs(ssegs, 0);
                    let ghost here = pairs_of_segs(ssegs, j as int);
                    assert(here[0] == base[out@.len() - 1]);
                    assert forall|k: int|
                        0 <= k < pairs_of_segs(ssegs, j as int + 1).len() implies #[trigger] pairs_of_segs(
                        ssegs,
                        j as int + 1,
                    )[k] == base[k + out@.len()] by {
                        assert(here[k + 1] == pairs_of_segs(ssegs, j as int + 1)[k]);
                        assert(here[k + 1] == base[k + 1 + out@.len() - 1]);
                    }
                }
            },
            None => {
                proof {
                    crate::text::lemma_find_char_none(ssegs[j as int], '=');
                    assert(pairs_of_segs(ssegs, j as int) == pairs_of_segs(ssegs, j as int + 1));
                }
            },
        }
        j = j + 1;
    }
    out
}

} // verus!
