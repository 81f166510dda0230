//! Text with its colour escape sequences taken out, and the facts that
//! show that the framed documents read the same with colours and without.
use vstd::prelude::*;
use crate::size::is_white_space;
use crate::manual::{
    bar, blank_text, block_text, bottom_text, document_text, is_palette, left_text, line_text, option_text,
    paragraph_text, paragraph_words, repeat, right_text, role_color, rule_line, separator_text, split_state,
    split_words, top_text, word_color, wrap_all, wrap_word, BlockView, ManualColors, PartView, Role, WrapState,
};

verus! {

/// The escape character that begins a colour sequence.
pub open spec fn esc() -> char {
    '\x1b'
}

/// `s` read from a point inside an escape sequence (`inside`) or outside
/// one, with every escape sequence (the escape character and all up to and
/// including the next `m`) left out.
pub open spec fn strip_from(s: Seq<char>, inside: bool) -> Seq<char>
    decreases s.len(),
{
    if s.len() == 0 {
        seq![]
    } else if inside {
        strip_from(s.drop_first(), s[0] != 'm')
    } else if s[0] == esc() {
        strip_from(s.drop_first(), true)
    } else {
        seq![s[0]] + strip_from(s.drop_first(), false)
    }
}

/// The visible characters of `s`: `s` without its escape sequences.
pub open spec fn strip_sgr(s: Seq<char>) -> Seq<char> {
    strip_from(s, false)
}

/// Whether reading `s` from `inside` ends inside an escape sequence.
pub open spec fn ends_inside(s: Seq<char>, inside: bool) -> bool
    decreases s.len(),
{
    if s.len() == 0 {
        inside
    } else if inside {
        ends_inside(s.drop_first(), s[0] != 'm')
    } else {
        ends_inside(s.drop_first(), s[0] == esc())
    }
}

/// Whether `s` holds no escape character.
pub open spec fn esc_free(s: Seq<char>) -> bool {
    forall|i: int| 0 <= i < s.len() ==> s[i] != esc()
}

/// Whether `x` shows as `y`: it holds whole escape sequences only, and
/// without them it is `y`, which holds none.
pub open spec fn shows_as(x: Seq<char>, y: Seq<char>) -> bool {
    &&& !ends_inside(x, false)
    &&& strip_sgr(x) == y
    &&& esc_free(y)
}

/// Whether the lines `xs` show, one for one, as the lines `ys`.
pub open spec fn lines_show_as(xs: Seq<Seq<char>>, ys: Seq<Seq<char>>) -> bool {
    &&& xs.len() == ys.len()
    &&& forall|i: int| 0 <= i < xs.len() ==> shows_as(#[trigger] xs[i], ys[i])
}

/// Whether no text of the parts holds an escape character.
pub open spec fn parts_esc_free(ps: Seq<PartView>) -> bool {
    forall|i: int| 0 <= i < ps.len() ==> esc_free(#[trigger] ps[i].text)
}

/// Whether no text of a block holds an escape character.
pub open spec fn block_esc_free(b: BlockView) -> bool {
    match b {
        BlockView::Line(t, _) => esc_free(t),
        BlockView::OptionLine(o, d) => esc_free(o) && esc_free(d),
        BlockView::Paragraph(ps, _) => parts_esc_free(ps),
        BlockView::Example(ps, command) => parts_esc_free(ps) && esc_free(command),
        BlockView::Section(t) => esc_free(t),
        BlockView::ManualParagraph(ps) => parts_esc_free(ps),
        BlockView::Subsection(t, ps) => esc_free(t) && parts_esc_free(ps),
        _ => true,
    }
}

proof fn lemma_strip_concat(a: Seq<char>, b: Seq<char>, st: bool)
    ensures
        strip_from(a + b, st) == strip_from(a, st) + strip_from(b, ends_inside(a, st)),
        ends_inside(a + b, st) == ends_inside(b, ends_inside(a, st)),
    decreases a.len(),
{
    if a.len() == 0 {
        assert(a + b =~= b);
        assert(strip_from(a, st) + strip_from(b, st) =~= strip_from(b, st));
    } else {
        assert((a + b).drop_first() =~= a.drop_first() + b);
        assert((a + b)[0] == a[0]);
        let next = if st {
            a[0] != 'm'
        } else {
            a[0] == esc()
        };
        lemma_strip_concat(a.drop_first(), b, next);
        if !st && a[0] != esc() {
            assert(seq![a[0]] + (strip_from(a.drop_first(), false) + strip_from(b, ends_inside(a, st))) =~= (seq![a[0]]
                + strip_from(a.drop_first(), false)) + strip_from(b, ends_inside(a, st)));
        }
    }
}

/// Text made of pieces that each show as some text shows as those texts,
/// joined.
pub broadcast proof fn lemma_shows_concat(a: Seq<char>, a2: Seq<char>, b: Seq<char>, b2: Seq<char>)
    requires
        shows_as(a, a2),
        shows_as(b, b2),
    ensures
        #[trigger] shows_as(a + b, a2 + b2),
{
    lemma_strip_concat(a, b, false);
    assert forall|i: int| 0 <= i < (a2 + b2).len() implies (a2 + b2)[i] != esc() by {
        if i < a2.len() {
            assert((a2 + b2)[i] == a2[i]);
        } else {
            assert((a2 + b2)[i] == b2[i - a2.len()]);
        }
    }
}

/// Text without escape characters shows as itself.
pub proof fn lemma_plain_shows(t: Seq<char>)
    requires
        esc_free(t),
    ensures
        shows_as(t, t),
    decreases t.len(),
{
    if t.len() > 0 {
        assert(esc_free(t.drop_first())) by {
            assert forall|i: int| 0 <= i < t.drop_first().len() implies t.drop_first()[i] != esc() by {
                assert(t.drop_first()[i] == t[i + 1]);
            }
        }
        lemma_plain_shows(t.drop_first());
        assert(seq![t[0]] + t.drop_first() =~= t);
    } else {
        assert(t =~= seq![]);
    }
}

proof fn lemma_inside_code(x: Seq<char>)
    requires
        x.len() >= 1,
        x.last() == 'm',
        forall|i: int| 0 <= i < x.len() - 1 ==> x[i] != 'm',
    ensures
        strip_from(x, true) == Seq::<char>::empty(),
        !ends_inside(x, true),
    decreases x.len(),
{
    let rest = x.drop_first();
    if x.len() > 1 {
        assert(x[0] != 'm');
        assert(rest.last() == x.last());
        assert forall|i: int| 0 <= i < rest.len() - 1 implies rest[i] != 'm' by {
            assert(rest[i] == x[i + 1]);
        }
        lemma_inside_code(rest);
        assert(strip_from(x, true) == strip_from(rest, true));
        assert(ends_inside(x, true) == ends_inside(rest, true));
    } else {
        assert(x[0] == 'm');
        assert(rest.len() == 0);
        assert(strip_from(rest, false) == Seq::<char>::empty());
        assert(strip_from(x, true) == strip_from(rest, false));
        assert(!ends_inside(rest, false));
    }
}

/// An escape sequence shows as nothing.
proof fn lemma_code_shows(k: Seq<char>)
    requires
        k.len() >= 2,
        k[0] == esc(),
        k.last() == 'm',
        forall|i: int| 0 < i < k.len() - 1 ==> k[i] != 'm',
    ensures
        shows_as(k, seq![]),
{
    lemma_inside_code(k.drop_first());
}

/// Whether every colour of `on` shows as the same colour of `off`, which
/// is empty.
pub open spec fn palettes_match(on: ManualColors, off: ManualColors) -> bool {
    &&& shows_as(on.accent@, off.accent@)
    &&& shows_as(on.text@, off.text@)
    &&& shows_as(on.emphasis@, off.emphasis@)
    &&& shows_as(on.title@, off.title@)
    &&& shows_as(on.example@, off.example@)
    &&& shows_as(on.option@, off.option@)
    &&& shows_as(on.border@, off.border@)
    &&& shows_as(on.reset@, off.reset@)
    &&& off.text@ == Seq::<char>::empty()
    &&& on.accent@.len() > 0 && on.text@.len() > 0 && on.emphasis@.len() > 0 && on.title@.len() > 0
    &&& on.example@.len() > 0 && on.option@.len() > 0
}

/// The manual's palette shows as no colours at all.
pub proof fn lemma_palettes_match(on: ManualColors, off: ManualColors)
    requires
        is_palette(on, true),
        is_palette(off, false),
    ensures
        palettes_match(on, off),
{
    reveal_strlit("\x1b[36m");
    reveal_strlit("\x1b[37m");
    reveal_strlit("\x1b[1;97m");
    reveal_strlit("\x1b[1;96m");
    reveal_strlit("\x1b[32m");
    reveal_strlit("\x1b[1;92m");
    reveal_strlit("\x1b[1;30m");
    reveal_strlit("\x1b[0m");
    reveal_strlit("");
    assert(off.accent@ =~= seq![]);
    lemma_code_shows(on.accent@);
    lemma_code_shows(on.text@);
    lemma_code_shows(on.emphasis@);
    lemma_code_shows(on.title@);
    lemma_code_shows(on.example@);
    lemma_code_shows(on.option@);
    lemma_code_shows(on.border@);
    lemma_code_shows(on.reset@);
}

proof fn lemma_repeat_shows(ch: char, n: nat)
    requires
        ch != esc(),
    ensures
        shows_as(repeat(ch, n), repeat(ch, n)),
{
    lemma_plain_shows(repeat(ch, n));
}

proof fn lemma_char_shows(ch: char)
    requires
        ch != esc(),
    ensures
        shows_as(seq![ch], seq![ch]),
{
    lemma_plain_shows(seq![ch]);
}

proof fn lemma_bar_shows(ascii: bool)
    ensures
        shows_as(bar(ascii), bar(ascii)),
{
    lemma_plain_shows(bar(ascii));
}

proof fn lemma_rule_shows(width: nat, on: ManualColors, off: ManualColors, ascii: bool, left: char, right: char)
    requires
        palettes_match(on, off),
        left != esc(),
        right != esc(),
    ensures
        shows_as(rule_line(width, on, ascii, left, right), rule_line(width, off, ascii, left, right)),
{
    broadcast use lemma_shows_concat;

    lemma_repeat_shows('-', width + 4);
    lemma_repeat_shows('\u{2500}', width + 4);
    lemma_char_shows('+');
    lemma_char_shows(left);
    lemma_char_shows(right);
}

proof fn lemma_frame_lines_show(width: nat, on: ManualColors, off: ManualColors, ascii: bool)
    requires
        palettes_match(on, off),
    ensures
        shows_as(top_text(width, on, ascii), top_text(width, off, ascii)),
        shows_as(separator_text(width, on, ascii), separator_text(width, off, ascii)),
        shows_as(bottom_text(width, on, ascii), bottom_text(width, off, ascii)),
        shows_as(blank_text(width, on, ascii), blank_text(width, off, ascii)),
{
    broadcast use lemma_shows_concat;

    lemma_rule_shows(width, on, off, ascii, '\u{250c}', '\u{2510}');
    lemma_rule_shows(width, on, off, ascii, '\u{251c}', '\u{2524}');
    lemma_rule_shows(width, on, off, ascii, '\u{2514}', '\u{2518}');
    lemma_rule_shows(width, on, off, ascii, '+', '+');
    lemma_bar_shows(ascii);
    lemma_repeat_shows(' ', 2);
    lemma_repeat_shows(' ', width);
}

proof fn lemma_text_line_shows(
    t: Seq<char>,
    width: nat,
    color_on: Seq<char>,
    color_off: Seq<char>,
    on: ManualColors,
    off: ManualColors,
    ascii: bool,
)
    requires
        palettes_match(on, off),
        esc_free(t),
        shows_as(color_on, color_off),
    ensures
        shows_as(line_text(t, width, color_on, on, ascii), line_text(t, width, color_off, off, ascii)),
{
    broadcast use lemma_shows_concat;

    lemma_plain_shows(t);
    lemma_bar_shows(ascii);
    lemma_repeat_shows(' ', 2);
    lemma_repeat_shows(' ', crate::manual::minus(width, t.len()));
}

proof fn lemma_edges_show(indent: nat, width: nat, used: nat, on: ManualColors, off: ManualColors, ascii: bool)
    requires
        palettes_match(on, off),
    ensures
        shows_as(left_text(indent, on, ascii), left_text(indent, off, ascii)),
        shows_as(right_text(width, used, on, ascii), right_text(width, used, off, ascii)),
{
    broadcast use lemma_shows_concat;

    lemma_bar_shows(ascii);
    lemma_repeat_shows(' ', 2);
    lemma_repeat_shows(' ', indent);
    lemma_repeat_shows(' ', crate::manual::minus(width, used) + 2);
}

proof fn lemma_option_line_shows(o: Seq<char>, d: Seq<char>, width: nat, on: ManualColors, off: ManualColors, ascii: bool)
    requires
        palettes_match(on, off),
        esc_free(o),
        esc_free(d),
    ensures
        shows_as(option_text(o, d, width, on, ascii), option_text(o, d, width, off, ascii)),
{
    broadcast use lemma_shows_concat;

    lemma_edges_show(2, crate::manual::minus(width, 2), 28 + d.len(), on, off, ascii);
    lemma_plain_shows(o);
    lemma_plain_shows(d);
    lemma_repeat_shows(' ', crate::manual::minus(28, o.len()));
}

proof fn lemma_role_shows(r: Role, on: ManualColors, off: ManualColors)
    requires
        palettes_match(on, off),
    ensures
        shows_as(role_color(on, r), role_color(off, r)),
        shows_as(word_color(on, r), word_color(off, r)),
{
    assert(role_color(on, r).len() > 0);
    if role_color(off, r).len() == 0 {
        assert(role_color(off, r) =~= off.text@);
    }
}

proof fn lemma_lines_push(xs: Seq<Seq<char>>, ys: Seq<Seq<char>>, x: Seq<char>, y: Seq<char>)
    requires
        lines_show_as(xs, ys),
        shows_as(x, y),
    ensures
        lines_show_as(xs.push(x), ys.push(y)),
{
    assert forall|i: int| 0 <= i < xs.push(x).len() implies shows_as(#[trigger] xs.push(x)[i], ys.push(y)[i]) by {
        if i < xs.len() {
            assert(xs.push(x)[i] == xs[i]);
        }
    }
}

proof fn lemma_lines_concat(xs: Seq<Seq<char>>, ys: Seq<Seq<char>>, xs2: Seq<Seq<char>>, ys2: Seq<Seq<char>>)
    requires
        lines_show_as(xs, ys),
        lines_show_as(xs2, ys2),
    ensures
        lines_show_as(xs + xs2, ys + ys2),
{
    assert forall|i: int| 0 <= i < (xs + xs2).len() implies shows_as(#[trigger] (xs + xs2)[i], (ys + ys2)[i]) by {
        if i < xs.len() {
            assert((xs + xs2)[i] == xs[i]);
            assert((ys + ys2)[i] == ys[i]);
        } else {
            assert((xs + xs2)[i] == xs2[i - xs.len()]);
            assert((ys + ys2)[i] == ys2[i - ys.len()]);
        }
    }
}

proof fn lemma_split_esc_free(t: Seq<char>)
    requires
        esc_free(t),
    ensures
        esc_free(split_state(t).1),
        forall|i: int| 0 <= i < split_state(t).0.len() ==> esc_free(#[trigger] split_state(t).0[i]),
        forall|i: int| 0 <= i < split_words(t).len() ==> esc_free(#[trigger] split_words(t)[i]),
    decreases t.len(),
{
    if t.len() > 0 {
        let rest = t.drop_last();
        assert(esc_free(rest)) by {
            assert forall|i: int| 0 <= i < rest.len() implies rest[i] != esc() by {
                assert(rest[i] == t[i]);
            }
        }
        lemma_split_esc_free(rest);
        let (ws, cur) = split_state(rest);
        assert(t.last() == t[t.len() - 1]);
        assert(esc_free(cur.push(t.last()))) by {
            assert forall|i: int| 0 <= i < cur.push(t.last()).len() implies cur.push(t.last())[i] != esc() by {
                if i < cur.len() {
                    assert(cur.push(t.last())[i] == cur[i]);
                }
            }
        }
        assert forall|i: int| 0 <= i < ws.push(cur).len() implies esc_free(#[trigger] ws.push(cur)[i]) by {
            if i < ws.len() {
                assert(ws.push(cur)[i] == ws[i]);
            }
        }
        assert(esc_free(Seq::<char>::empty()));
    }
    let (ws, cur) = split_state(t);
    assert forall|i: int| 0 <= i < ws.push(cur).len() implies esc_free(#[trigger] ws.push(cur)[i]) by {
        if i < ws.len() {
            assert(ws.push(cur)[i] == ws[i]);
        }
    }
}

/// Whether two lists of coloured words hold the same words, without escape
/// characters, in colours that show alike.
pub open spec fn words_match(a: Seq<(Seq<char>, Seq<char>)>, b: Seq<(Seq<char>, Seq<char>)>) -> bool {
    &&& a.len() == b.len()
    &&& forall|i: int| 0 <= i < a.len() ==> (#[trigger] a[i]).0 == b[i].0 && esc_free(a[i].0) && shows_as(a[i].1, b[i].1)
}

proof fn lemma_paragraph_words_match(parts: Seq<PartView>, on: ManualColors, off: ManualColors)
    requires
        palettes_match(on, off),
        parts_esc_free(parts),
    ensures
        words_match(paragraph_words(parts, on), paragraph_words(parts, off)),
    decreases parts.len(),
{
    if parts.len() > 0 {
        let rest = parts.drop_last();
        assert(parts_esc_free(rest)) by {
            assert forall|i: int| 0 <= i < rest.len() implies esc_free(#[trigger] rest[i].text) by {
                assert(rest[i] == parts[i]);
            }
        }
        lemma_paragraph_words_match(rest, on, off);
        let last = parts.last();
        assert(esc_free(last.text)) by {
            assert(last == parts[parts.len() - 1]);
        }
        lemma_split_esc_free(last.text);
        lemma_role_shows(last.color, on, off);
        let a0 = paragraph_words(rest, on);
        let b0 = paragraph_words(rest, off);
        let ws = split_words(last.text);
        let a1 = ws.map_values(|w: Seq<char>| (w, word_color(on, last.color)));
        let b1 = ws.map_values(|w: Seq<char>| (w, word_color(off, last.color)));
        let a = paragraph_words(parts, on);
        let b = paragraph_words(parts, off);
        assert(a == a0 + a1);
        assert(b == b0 + b1);
        assert forall|i: int| 0 <= i < a.len() implies (#[trigger] a[i]).0 == b[i].0 && esc_free(a[i].0) && shows_as(
            a[i].1,
            b[i].1,
        ) by {
            if i < a0.len() {
                assert(a[i] == a0[i]);
                assert(b[i] == b0[i]);
            } else {
                let k = i - a0.len();
                assert(a[i] == a1[k]);
                assert(b[i] == b1[k]);
                assert(esc_free(ws[k]));
            }
        }
    }
}

/// Whether two paragraph states show alike: the same columns taken, the
/// finished lines and the line being filled showing alike.
pub open spec fn states_match(s1: WrapState, s2: WrapState) -> bool {
    &&& s1.width == s2.width
    &&& lines_show_as(s1.done, s2.done)
    &&& shows_as(s1.cur, s2.cur)
}

proof fn lemma_wrap_word_match(
    s1: WrapState,
    s2: WrapState,
    w1: (Seq<char>, Seq<char>),
    w2: (Seq<char>, Seq<char>),
    width: nat,
    indent: nat,
    on: ManualColors,
    off: ManualColors,
    ascii: bool,
)
    requires
        palettes_match(on, off),
        states_match(s1, s2),
        w1.0 == w2.0,
        esc_free(w1.0),
        shows_as(w1.1, w2.1),
    ensures
        states_match(wrap_word(s1, w1, width, indent, on, ascii), wrap_word(s2, w2, width, indent, off, ascii)),
{
    broadcast use lemma_shows_concat;

    lemma_edges_show(indent, width, s1.width, on, off, ascii);
    lemma_plain_shows(w1.0);
    lemma_char_shows(' ');
    lemma_lines_push(s1.done, s2.done, s1.cur + right_text(width, s1.width, on, ascii), s2.cur + right_text(width, s2.width, off, ascii));
}

proof fn lemma_wrap_all_match(
    a: Seq<(Seq<char>, Seq<char>)>,
    b: Seq<(Seq<char>, Seq<char>)>,
    width: nat,
    indent: nat,
    on: ManualColors,
    off: ManualColors,
    ascii: bool,
)
    requires
        palettes_match(on, off),
        words_match(a, b),
    ensures
        states_match(wrap_all(a, width, indent, on, ascii), wrap_all(b, width, indent, off, ascii)),
    decreases a.len(),
{
    if a.len() == 0 {
        lemma_edges_show(indent, width, 0, on, off, ascii);
        assert(lines_show_as(Seq::<Seq<char>>::empty(), Seq::<Seq<char>>::empty()));
    } else {
        let a0 = a.drop_last();
        let b0 = b.drop_last();
        assert(words_match(a0, b0)) by {
            assert forall|i: int| 0 <= i < a0.len() implies (#[trigger] a0[i]).0 == b0[i].0 && esc_free(a0[i].0)
                && shows_as(a0[i].1, b0[i].1) by {
                assert(a0[i] == a[i]);
                assert(b0[i] == b[i]);
            }
        }
        lemma_wrap_all_match(a0, b0, width, indent, on, off, ascii);
        assert(a.last() == a[a.len() - 1]);
        assert(b.last() == b[b.len() - 1]);
        lemma_wrap_word_match(
            wrap_all(a0, width, indent, on, ascii),
            wrap_all(b0, width, indent, off, ascii),
            a.last(),
            b.last(),
            width,
            indent,
            on,
            off,
            ascii,
        );
    }
}

proof fn lemma_paragraph_shows(parts: Seq<PartView>, width: nat, indent: nat, on: ManualColors, off: ManualColors, ascii: bool)
    requires
        palettes_match(on, off),
        parts_esc_free(parts),
    ensures
        lines_show_as(paragraph_text(parts, width, indent, on, ascii), paragraph_text(parts, width, indent, off, ascii)),
{
    broadcast use lemma_shows_concat;

    let cw = crate::manual::minus(width, indent);
    lemma_paragraph_words_match(parts, on, off);
    lemma_wrap_all_match(paragraph_words(parts, on), paragraph_words(parts, off), cw, indent, on, off, ascii);
    let s1 = wrap_all(paragraph_words(parts, on), cw, indent, on, ascii);
    let s2 = wrap_all(paragraph_words(parts, off), cw, indent, off, ascii);
    lemma_edges_show(indent, cw, s1.width, on, off, ascii);
    lemma_lines_push(s1.done, s2.done, s1.cur + right_text(cw, s1.width, on, ascii), s2.cur + right_text(cw, s2.width, off, ascii));
}

proof fn lemma_single_line(x: Seq<char>, y: Seq<char>)
    requires
        shows_as(x, y),
    ensures
        lines_show_as(seq![x], seq![y]),
{
    assert(seq![x][0] == x);
}

#[verifier::spinoff_prover]
#[verifier::rlimit(50)]
proof fn lemma_block_shows(b: BlockView, width: nat, on: ManualColors, off: ManualColors, ascii: bool)
    requires
        palettes_match(on, off),
        block_esc_free(b),
    ensures
        lines_show_as(block_text(b, width, on, ascii), block_text(b, width, off, ascii)),
{
    lemma_frame_lines_show(width, on, off, ascii);
    let blank_on = seq![blank_text(width, on, ascii)];
    let blank_off = seq![blank_text(width, off, ascii)];
    lemma_single_line(blank_text(width, on, ascii), blank_text(width, off, ascii));
    match b {
        BlockView::Top => lemma_single_line(top_text(width, on, ascii), top_text(width, off, ascii)),
        BlockView::Separator => lemma_single_line(separator_text(width, on, ascii), separator_text(width, off, ascii)),
        BlockView::Bottom => lemma_single_line(bottom_text(width, on, ascii), bottom_text(width, off, ascii)),
        BlockView::Blank => {},
        BlockView::Line(t, r) => {
            lemma_role_shows(r, on, off);
            lemma_text_line_shows(t, width, role_color(on, r), role_color(off, r), on, off, ascii);
            lemma_single_line(
                line_text(t, width, role_color(on, r), on, ascii),
                line_text(t, width, role_color(off, r), off, ascii),
            );
        },
        BlockView::OptionLine(o, d) => {
            lemma_option_line_shows(o, d, width, on, off, ascii);
            lemma_single_line(option_text(o, d, width, on, ascii), option_text(o, d, width, off, ascii));
        },
        BlockView::Paragraph(parts, indent) => {
            lemma_paragraph_shows(parts, width, indent, on, off, ascii);
        },
        BlockView::Example(parts, command) => {
            let cmd = seq![PartView { text: command, color: Role::Example }];
            assert(parts_esc_free(cmd));
            lemma_paragraph_shows(parts, width, 2, on, off, ascii);
            lemma_paragraph_shows(cmd, width, 4, on, off, ascii);
            lemma_lines_concat(
                paragraph_text(parts, width, 2, on, ascii),
                paragraph_text(parts, width, 2, off, ascii),
                paragraph_text(cmd, width, 4, on, ascii),
                paragraph_text(cmd, width, 4, off, ascii),
            );
            lemma_lines_concat(
                paragraph_text(parts, width, 2, on, ascii) + paragraph_text(cmd, width, 4, on, ascii),
                paragraph_text(parts, width, 2, off, ascii) + paragraph_text(cmd, width, 4, off, ascii),
                blank_on,
                blank_off,
            );
        },
        BlockView::Section(t) => {
            lemma_text_line_shows(t, width, on.title@, off.title@, on, off, ascii);
            let l1 = seq![
                separator_text(width, on, ascii),
                blank_text(width, on, ascii),
                line_text(t, width, on.title@, on, ascii),
                blank_text(width, on, ascii),
            ];
            let l2 = seq![
                separator_text(width, off, ascii),
                blank_text(width, off, ascii),
                line_text(t, width, off.title@, off, ascii),
                blank_text(width, off, ascii),
            ];
            assert forall|i: int| 0 <= i < l1.len() implies shows_as(#[trigger] l1[i], l2[i]) by {
                if i == 0 {
                } else if i == 1 {
                } else if i == 2 {
                } else {
                }
            }
        },
        BlockView::ManualParagraph(parts) => {
            lemma_paragraph_shows(parts, width, 2, on, off, ascii);
            lemma_lines_concat(
                paragraph_text(parts, width, 2, on, ascii),
                paragraph_text(parts, width, 2, off, ascii),
                blank_on,
                blank_off,
            );
        },
        BlockView::Subsection(t, parts) => {
            let title = seq![PartView { text: t, color: Role::Accent }];
            assert(parts_esc_free(title));
            lemma_paragraph_shows(title, width, 2, on, off, ascii);
            lemma_paragraph_shows(parts, width, 4, on, off, ascii);
            lemma_lines_concat(
                paragraph_text(title, width, 2, on, ascii),
                paragraph_text(title, width, 2, off, ascii),
                paragraph_text(parts, width, 4, on, ascii),
                paragraph_text(parts, width, 4, off, ascii),
            );
            lemma_lines_concat(
                paragraph_text(title, width, 2, on, ascii) + paragraph_text(parts, width, 4, on, ascii),
                paragraph_text(title, width, 2, off, ascii) + paragraph_text(parts, width, 4, off, ascii),
                blank_on,
                blank_off,
            );
        },
    }
}

/// A document of blocks without escape characters in their texts shows,
/// line for line, as the same document drawn without colours.
pub proof fn lemma_document_shows(blocks: Seq<BlockView>, width: nat, on: ManualColors, off: ManualColors, ascii: bool)
    requires
        palettes_match(on, off),
        forall|i: int| 0 <= i < blocks.len() ==> block_esc_free(#[trigger] blocks[i]),
    ensures
        lines_show_as(document_text(blocks, width, on, ascii), document_text(blocks, width, off, ascii)),
    decreases blocks.len(),
{
    if blocks.len() > 0 {
        let rest = blocks.drop_last();
        assert forall|i: int| 0 <= i < rest.len() implies block_esc_free(#[trigger] rest[i]) by {
            assert(rest[i] == blocks[i]);
        }
        lemma_document_shows(rest, width, on, off, ascii);
        assert(block_esc_free(blocks[blocks.len() - 1]));
        lemma_block_shows(blocks.last(), width, on, off, ascii);
        lemma_lines_concat(
            document_text(rest, width, on, ascii),
            document_text(rest, width, off, ascii),
            block_text(blocks.last(), width, on, ascii),
            block_text(blocks.last(), width, off, ascii),
        );
    } else {
        assert(lines_show_as(Seq::<Seq<char>>::empty(), Seq::<Seq<char>>::empty()));
    }
}

/// The words of the parts of a paragraph, in order.
pub open spec fn words_in(parts: Seq<PartView>) -> Seq<Seq<char>>
    decreases parts.len(),
{
    if parts.len() == 0 {
        seq![]
    } else {
        words_in(parts.drop_last()) + split_words(parts.last().text)
    }
}

/// Whether every word of the parts is at most `columns` wide.
pub open spec fn words_fit(parts: Seq<PartView>, columns: nat) -> bool {
    forall|i: int| 0 <= i < words_in(parts).len() ==> (#[trigger] words_in(parts)[i]).len() <= columns
}

/// Whether a block fits a frame `width` columns wide: its lines of text,
/// option descriptions and words are no wider than the room they get.
pub open spec fn block_fits(b: BlockView, width: nat) -> bool {
    match b {
        BlockView::Line(t, _) => t.len() <= width,
        BlockView::OptionLine(o, d) => o.len() <= 28 && 30 + d.len() <= width,
        BlockView::Paragraph(ps, indent) => indent <= width && words_fit(ps, (width - indent) as nat),
        BlockView::Example(ps, command) => 4 <= width && words_fit(ps, (width - 2) as nat) && words_fit(
            seq![PartView { text: command, color: Role::Example }],
            (width - 4) as nat,
        ),
        BlockView::Section(t) => t.len() <= width,
        BlockView::ManualParagraph(ps) => 2 <= width && words_fit(ps, (width - 2) as nat),
        BlockView::Subsection(t, ps) => 4 <= width && words_fit(
            seq![PartView { text: t, color: Role::Accent }],
            (width - 2) as nat,
        ) && words_fit(ps, (width - 4) as nat),
        _ => true,
    }
}

/// Whether every line of `ls` is `n` characters long.
pub open spec fn all_lines_long(ls: Seq<Seq<char>>, n: nat) -> bool {
    forall|i: int| 0 <= i < ls.len() ==> (#[trigger] ls[i]).len() == n
}

proof fn lemma_plain_palette(c: ManualColors)
    requires
        is_palette(c, false),
    ensures
        c.accent@.len() == 0 && c.text@.len() == 0 && c.emphasis@.len() == 0 && c.title@.len() == 0,
        c.example@.len() == 0 && c.option@.len() == 0 && c.border@.len() == 0 && c.reset@.len() == 0,
{
    reveal_strlit("");
}

proof fn lemma_words_of_paragraph(parts: Seq<PartView>, c: ManualColors)
    ensures
        paragraph_words(parts, c).len() == words_in(parts).len(),
        forall|i: int| 0 <= i < words_in(parts).len() ==> (#[trigger] paragraph_words(parts, c)[i]).0 == words_in(parts)[i],
    decreases parts.len(),
{
    if parts.len() > 0 {
        lemma_words_of_paragraph(parts.drop_last(), c);
        let a0 = paragraph_words(parts.drop_last(), c);
        let w0 = words_in(parts.drop_last());
        let ws = split_words(parts.last().text);
        let a1 = ws.map_values(|w: Seq<char>| (w, word_color(c, parts.last().color)));
        assert forall|i: int| 0 <= i < words_in(parts).len() implies (#[trigger] paragraph_words(parts, c)[i]).0
            == words_in(parts)[i] by {
            if i < w0.len() {
                assert(paragraph_words(parts, c)[i] == a0[i]);
                assert(words_in(parts)[i] == w0[i]);
            } else {
                assert(paragraph_words(parts, c)[i] == a1[i - w0.len()]);
                assert(words_in(parts)[i] == ws[i - w0.len()]);
            }
        }
    }
}

proof fn lemma_wrap_lengths(
    words: Seq<(Seq<char>, Seq<char>)>,
    cw: nat,
    indent: nat,
    c: ManualColors,
    ascii: bool,
)
    requires
        is_palette(c, false),
        forall|i: int| 0 <= i < words.len() ==> (#[trigger] words[i]).0.len() <= cw && words[i].1.len() == 0,
    ensures
        wrap_all(words, cw, indent, c, ascii).width <= cw,
        wrap_all(words, cw, indent, c, ascii).cur.len() == 3 + indent + wrap_all(words, cw, indent, c, ascii).width,
        all_lines_long(wrap_all(words, cw, indent, c, ascii).done, cw + indent + 6),
    decreases words.len(),
{
    lemma_plain_palette(c);
    if words.len() > 0 {
        let w0 = words.drop_last();
        assert forall|i: int| 0 <= i < w0.len() implies (#[trigger] w0[i]).0.len() <= cw && w0[i].1.len() == 0 by {
            assert(w0[i] == words[i]);
        }
        lemma_wrap_lengths(w0, cw, indent, c, ascii);
        let st = wrap_all(w0, cw, indent, c, ascii);
        let w = words.last();
        assert(w == words[words.len() - 1]);
        let line = st.cur + right_text(cw, st.width, c, ascii);
        assert(line.len() == cw + indent + 6);
        assert forall|i: int| 0 <= i < st.done.push(line).len() implies (#[trigger] st.done.push(line)[i]).len() == cw
            + indent + 6 by {
            if i < st.done.len() {
                assert(st.done.push(line)[i] == st.done[i]);
            }
        }
    } else {
        assert(all_lines_long(Seq::<Seq<char>>::empty(), cw + indent + 6));
    }
}

proof fn lemma_paragraph_lengths(parts: Seq<PartView>, width: nat, indent: nat, c: ManualColors, ascii: bool)
    requires
        is_palette(c, false),
        indent <= width,
        words_fit(parts, (width - indent) as nat),
    ensures
        all_lines_long(paragraph_text(parts, width, indent, c, ascii), width + 6),
{
    lemma_plain_palette(c);
    let cw = crate::manual::minus(width, indent);
    let words = paragraph_words(parts, c);
    lemma_words_of_paragraph(parts, c);
    assert forall|i: int| 0 <= i < words.len() implies (#[trigger] words[i]).0.len() <= cw && words[i].1.len() == 0 by {
        assert(words[i].0 == words_in(parts)[i]);
        assert(words_in(parts)[i].len() <= cw);
        lemma_paragraph_word_colour(parts, c, i);
    }
    lemma_wrap_lengths(words, cw, indent, c, ascii);
    let st = wrap_all(words, cw, indent, c, ascii);
    let line = st.cur + right_text(cw, st.width, c, ascii);
    assert forall|i: int| 0 <= i < st.done.push(line).len() implies (#[trigger] st.done.push(line)[i]).len() == width + 6 by {
        if i < st.done.len() {
            assert(st.done.push(line)[i] == st.done[i]);
        }
    }
}

proof fn lemma_paragraph_word_colour(parts: Seq<PartView>, c: ManualColors, i: int)
    requires
        is_palette(c, false),
        0 <= i < paragraph_words(parts, c).len(),
    ensures
        paragraph_words(parts, c)[i].1.len() == 0,
    decreases parts.len(),
{
    lemma_plain_palette(c);
    if parts.len() > 0 {
        let a0 = paragraph_words(parts.drop_last(), c);
        let ws = split_words(parts.last().text);
        let a1 = ws.map_values(|w: Seq<char>| (w, word_color(c, parts.last().color)));
        if i < a0.len() {
            assert(paragraph_words(parts, c)[i] == a0[i]);
            lemma_paragraph_word_colour(parts.drop_last(), c, i);
        } else {
            assert(paragraph_words(parts, c)[i] == a1[i - a0.len()]);
            let r = parts.last().color;
            assert(role_color(c, r).len() == 0);
        }
    }
}

proof fn lemma_lengths_concat(xs: Seq<Seq<char>>, ys: Seq<Seq<char>>, n: nat)
    requires
        all_lines_long(xs, n),
        all_lines_long(ys, n),
    ensures
        all_lines_long(xs + ys, n),
{
    assert forall|i: int| 0 <= i < (xs + ys).len() implies (#[trigger] (xs + ys)[i]).len() == n by {
        if i < xs.len() {
            assert((xs + ys)[i] == xs[i]);
        } else {
            assert((xs + ys)[i] == ys[i - xs.len()]);
        }
    }
}

#[verifier::spinoff_prover]
#[verifier::rlimit(50)]
proof fn lemma_block_lengths(b: BlockView, width: nat, c: ManualColors, ascii: bool)
    requires
        is_palette(c, false),
        block_fits(b, width),
    ensures
        all_lines_long(block_text(b, width, c, ascii), width + 6),
{
    lemma_plain_palette(c);
    let blank = seq![blank_text(width, c, ascii)];
    assert(blank_text(width, c, ascii).len() == width + 6);
    assert(all_lines_long(blank, width + 6)) by {
        assert(blank[0] == blank_text(width, c, ascii));
    }
    match b {
        BlockView::Top => assert(block_text(b, width, c, ascii)[0] == top_text(width, c, ascii)),
        BlockView::Separator => assert(block_text(b, width, c, ascii)[0] == separator_text(width, c, ascii)),
        BlockView::Bottom => assert(block_text(b, width, c, ascii)[0] == bottom_text(width, c, ascii)),
        BlockView::Blank => {},
        BlockView::Line(t, r) => {
            assert(role_color(c, r).len() == 0);
            assert(block_text(b, width, c, ascii)[0] == line_text(t, width, role_color(c, r), c, ascii));
        },
        BlockView::OptionLine(o, d) => {
            assert(block_text(b, width, c, ascii)[0] == option_text(o, d, width, c, ascii));
        },
        BlockView::Paragraph(parts, indent) => {
            lemma_paragraph_lengths(parts, width, indent, c, ascii);
        },
        BlockView::Example(parts, command) => {
            let cmd = seq![PartView { text: command, color: Role::Example }];
            lemma_paragraph_lengths(parts, width, 2, c, ascii);
            lemma_paragraph_lengths(cmd, width, 4, c, ascii);
            lemma_lengths_concat(
                paragraph_text(parts, width, 2, c, ascii),
                paragraph_text(cmd, width, 4, c, ascii),
                width + 6,
            );
            lemma_lengths_concat(
                paragraph_text(parts, width, 2, c, ascii) + paragraph_text(cmd, width, 4, c, ascii),
                blank,
                width + 6,
            );
        },
        BlockView::Section(t) => {
            let ls = block_text(b, width, c, ascii);
            assert(ls[2] == line_text(t, width, c.title@, c, ascii));
            assert forall|i: int| 0 <= i < ls.len() implies (#[trigger] ls[i]).len() == width + 6 by {
                if i == 0 {
                } else if i == 1 {
                } else if i == 2 {
                } else {
                }
            }
        },
        BlockView::ManualParagraph(parts) => {
            lemma_paragraph_lengths(parts, width, 2, c, ascii);
            lemma_lengths_concat(paragraph_text(parts, width, 2, c, ascii), blank, width + 6);
        },
        BlockView::Subsection(t, parts) => {
            let title = seq![PartView { text: t, color: Role::Accent }];
            lemma_paragraph_lengths(title, width, 2, c, ascii);
            lemma_paragraph_lengths(parts, width, 4, c, ascii);
            lemma_lengths_concat(
                paragraph_text(title, width, 2, c, ascii),
                paragraph_text(parts, width, 4, c, ascii),
                width + 6,
            );
            lemma_lengths_concat(
                paragraph_text(title, width, 2, c, ascii) + paragraph_text(parts, width, 4, c, ascii),
                blank,
                width + 6,
            );
        },
    }
}

/// Without colours, every line of a document whose blocks fit is exactly
/// `width + 6` characters: the frame, its margins and the inner width.
pub proof fn lemma_document_lengths(blocks: Seq<BlockView>, width: nat, c: ManualColors, ascii: bool)
    requires
        is_palette(c, false),
        forall|i: int| 0 <= i < blocks.len() ==> block_fits(#[trigger] blocks[i], width),
    ensures
        all_lines_long(document_text(blocks, width, c, ascii), width + 6),
    decreases blocks.len(),
{
    if blocks.len() > 0 {
        let rest = blocks.drop_last();
        assert forall|i: int| 0 <= i < rest.len() implies block_fits(#[trigger] rest[i], width) by {
            assert(rest[i] == blocks[i]);
        }
        lemma_document_lengths(rest, width, c, ascii);
        assert(block_fits(blocks[blocks.len() - 1], width));
        lemma_block_lengths(blocks.last(), width, c, ascii);
        lemma_lengths_concat(
            document_text(rest, width, c, ascii),
            block_text(blocks.last(), width, c, ascii),
            width + 6,
        );
    } else {
        assert(all_lines_long(Seq::<Seq<char>>::empty(), width + 6));
    }
}

/// Whether `t` has no run of more than `k` characters without white space.
pub open spec fn short_runs(t: Seq<char>, k: nat) -> bool {
    forall|i: int| 0 <= i && i + k < t.len() ==> #[trigger] space_within(t, i, k)
}

/// Whether `t` has white space among its characters `i` to `i + k`.
pub open spec fn space_within(t: Seq<char>, i: int, k: nat) -> bool {
    exists|j: int| i <= j <= i + k && is_white_space(#[trigger] t[j])
}

proof fn lemma_split_state_runs(t: Seq<char>, k: nat)
    requires
        short_runs(t, k),
    ensures
        split_state(t).1.len() <= k,
        split_state(t).1.len() <= t.len(),
        forall|i: int| 0 <= i < split_state(t).1.len() ==> !is_white_space(#[trigger] split_state(t).1[i]),
        forall|i: int| 0 <= i < split_state(t).1.len() ==> split_state(t).1[i] == t[t.len() - split_state(t).1.len() + i],
        forall|i: int| 0 <= i < split_state(t).0.len() ==> (#[trigger] split_state(t).0[i]).len() <= k,
    decreases t.len(),
{
    if t.len() > 0 {
        let td = t.drop_last();
        assert(short_runs(td, k)) by {
            assert forall|i: int| 0 <= i && i + k < td.len() implies #[trigger] space_within(td, i, k) by {
                assert(space_within(t, i, k));
                let j = choose|j: int| i <= j <= i + k && is_white_space(#[trigger] t[j]);
                assert(td[j] == t[j]);
            }
        }
        lemma_split_state_runs(td, k);
        let (ws, cur) = split_state(td);
        if is_white_space(t.last()) {
            if cur.len() > 0 {
                assert forall|i: int| 0 <= i < ws.push(cur).len() implies (#[trigger] ws.push(cur)[i]).len() <= k by {
                    if i < ws.len() {
                        assert(ws.push(cur)[i] == ws[i]);
                    }
                }
            }
        } else {
            let nc = cur.push(t.last());
            assert forall|i: int| 0 <= i < nc.len() implies nc[i] == t[t.len() - nc.len() + i] by {
                if i < cur.len() {
                    assert(td[td.len() - cur.len() + i] == t[t.len() - nc.len() + i]);
                }
            }
            if nc.len() > k {
                let i0 = t.len() - nc.len();
                assert(i0 + k < t.len());
                assert(space_within(t, i0, k));
                let j = choose|j: int| i0 <= j <= i0 + k && is_white_space(#[trigger] t[j]);
                assert(nc[j - i0] == t[j]);
                if j - i0 < cur.len() {
                    assert(!is_white_space(cur[j - i0]));
                } else {
                    assert(nc[j - i0] == t.last());
                }
            }
        }
    }
}

/// A text with no long run without white space has no long word.
pub proof fn lemma_short_runs_words(t: Seq<char>, k: nat)
    requires
        short_runs(t, k),
    ensures
        forall|i: int| 0 <= i < split_words(t).len() ==> (#[trigger] split_words(t)[i]).len() <= k,
{
    lemma_split_state_runs(t, k);
    let (ws, cur) = split_state(t);
    if cur.len() > 0 {
        assert forall|i: int| 0 <= i < ws.push(cur).len() implies (#[trigger] ws.push(cur)[i]).len() <= k by {
            if i < ws.len() {
                assert(ws.push(cur)[i] == ws[i]);
            }
        }
    }
}

/// Parts whose texts have no long run without white space have no long
/// word.
pub proof fn lemma_parts_words_fit(parts: Seq<PartView>, k: nat, columns: nat)
    requires
        forall|i: int| 0 <= i < parts.len() ==> short_runs(#[trigger] parts[i].text, k),
        k <= columns,
    ensures
        words_fit(parts, columns),
    decreases parts.len(),
{
    if parts.len() > 0 {
        let pd = parts.drop_last();
        assert forall|i: int| 0 <= i < pd.len() implies short_runs(#[trigger] pd[i].text, k) by {
            assert(pd[i] == parts[i]);
        }
        lemma_parts_words_fit(pd, k, columns);
        assert(parts.last() == parts[parts.len() - 1]);
        lemma_short_runs_words(parts.last().text, k);
        let a = words_in(pd);
        let b = split_words(parts.last().text);
        assert forall|i: int| 0 <= i < words_in(parts).len() implies (#[trigger] words_in(parts)[i]).len() <= columns by {
            if i < a.len() {
                assert(words_in(parts)[i] == a[i]);
            } else {
                assert(words_in(parts)[i] == b[i - a.len()]);
            }
        }
    }
}

/// Whether no text of a block that is wrapped has a run of more than `k`
/// characters without white space, and the texts that are not wrapped are
/// no longer than `line` (lines) and `description` (option descriptions;
/// options at most 28).
pub open spec fn block_short(b: BlockView, k: nat, line: nat, description: nat) -> bool {
    match b {
        BlockView::Line(t, _) => t.len() <= line,
        BlockView::OptionLine(o, d) => o.len() <= 28 && d.len() <= description,
        BlockView::Paragraph(ps, indent) => indent <= 4 && forall|i: int| 0 <= i < ps.len() ==> short_runs(#[trigger] ps[i].text, k),
        BlockView::Example(ps, command) => short_runs(command, k) && forall|i: int| 0 <= i < ps.len() ==> short_runs(#[trigger] ps[i].text, k),
        BlockView::Section(t) => t.len() <= line,
        BlockView::ManualParagraph(ps) => forall|i: int| 0 <= i < ps.len() ==> short_runs(#[trigger] ps[i].text, k),
        BlockView::Subsection(t, ps) => short_runs(t, k) && forall|i: int| 0 <= i < ps.len() ==> short_runs(#[trigger] ps[i].text, k),
        _ => true,
    }
}

/// A block whose texts are short enough fits a frame wide enough.
pub proof fn lemma_block_short_fits(b: BlockView, k: nat, line: nat, description: nat, width: nat)
    requires
        block_short(b, k, line, description),
        k + 4 <= width,
        line <= width,
        description + 30 <= width,
    ensures
        block_fits(b, width),
{
    match b {
        BlockView::Paragraph(ps, indent) => lemma_parts_words_fit(ps, k, (width - indent) as nat),
        BlockView::Example(ps, command) => {
            lemma_parts_words_fit(ps, k, (width - 2) as nat);
            let cmd = seq![PartView { text: command, color: Role::Example }];
            assert(cmd[0].text == command);
            lemma_parts_words_fit(cmd, k, (width - 4) as nat);
        },
        BlockView::ManualParagraph(ps) => lemma_parts_words_fit(ps, k, (width - 2) as nat),
        BlockView::Subsection(t, ps) => {
            let title = seq![PartView { text: t, color: Role::Accent }];
            assert(title[0].text == t);
            lemma_parts_words_fit(title, k, (width - 2) as nat);
            lemma_parts_words_fit(ps, k, (width - 4) as nat);
        },
        _ => {},
    }
}

} // verus!
