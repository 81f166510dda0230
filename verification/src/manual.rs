//! The framed help, manual and classification help: the frame, the word
//! wrapping of paragraphs, and the width the frame takes on a terminal.
//! The texts themselves are in `manual_text`.
use vstd::prelude::*;
use crate::classify::TargetOs;
use crate::report::texts;
use crate::text::{lossy_text, utf8_lossy};
use crate::size::{is_digit_char, is_white_space, numeral, numeral_value, white_space};
use crate::text::{chars_of, push_str, string_from_chars};

verus! {

/// The colours of the manual.
#[derive(Debug, Clone, Copy)]
pub struct ManualColors {
    pub accent: &'static str,
    pub text: &'static str,
    pub emphasis: &'static str,
    pub title: &'static str,
    pub example: &'static str,
    pub option: &'static str,
    pub border: &'static str,
    pub reset: &'static str,
}

impl ManualColors {
    /// The manual's own palette, or no colours at all.
    pub fn new(enabled: bool) -> (r: ManualColors)
        ensures
            is_palette(r, enabled),
    {
        if !enabled {
            return ManualColors {
                accent: "",
                text: "",
                emphasis: "",
                title: "",
                example: "",
                option: "",
                border: "",
                reset: "",
            };
        }
        ManualColors {
            accent: "\x1b[36m",
            text: "\x1b[37m",
            emphasis: "\x1b[1;97m",
            title: "\x1b[1;96m",
            example: "\x1b[32m",
            option: "\x1b[1;92m",
            border: "\x1b[1;30m",
            reset: "\x1b[0m",
        }
    }
}

/// Whether `c` is the manual's palette (`enabled`) or holds no colours.
pub open spec fn is_palette(c: ManualColors, enabled: bool) -> bool {
    if enabled {
        c.accent@ == "\x1b[36m"@ && c.text@ == "\x1b[37m"@ && c.emphasis@ == "\x1b[1;97m"@ && c.title@
            == "\x1b[1;96m"@ && c.example@ == "\x1b[32m"@ && c.option@ == "\x1b[1;92m"@ && c.border@
            == "\x1b[1;30m"@ && c.reset@ == "\x1b[0m"@
    } else {
        c.accent@ == ""@ && c.text@ == ""@ && c.emphasis@ == ""@ && c.title@ == ""@ && c.example@ == ""@
            && c.option@ == ""@ && c.border@ == ""@ && c.reset@ == ""@
    }
}

/// The colour a piece of manual text is shown in.
#[derive(Debug, Clone, Copy, PartialEq, Eq, Structural)]
pub enum Role {
    Accent,
    Text,
    Emphasis,
    Title,
    Example,
    Option,
}

/// The escape sequence of a role.
pub open spec fn role_color(c: ManualColors, r: Role) -> Seq<char> {
    match r {
        Role::Accent => c.accent@,
        Role::Text => c.text@,
        Role::Emphasis => c.emphasis@,
        Role::Title => c.title@,
        Role::Example => c.example@,
        Role::Option => c.option@,
    }
}

fn role_code(c: &ManualColors, r: Role) -> (s: &'static str)
    ensures
        s@ == role_color(*c, r),
{
    match r {
        Role::Accent => c.accent,
        Role::Text => c.text,
        Role::Emphasis => c.emphasis,
        Role::Title => c.title,
        Role::Example => c.example,
        Role::Option => c.option,
    }
}

/// The colour a word of a paragraph part is shown in: its role's, or the
/// text colour where that is empty.
pub open spec fn word_color(c: ManualColors, r: Role) -> Seq<char> {
    if role_color(c, r).len() == 0 {
        c.text@
    } else {
        role_color(c, r)
    }
}

/// A run of text of one colour in a paragraph.
#[derive(Debug, Clone, Copy)]
pub struct ManualPart {
    pub text: &'static str,
    pub color: Role,
}

/// A run of text of one colour, as a value.
pub struct PartView {
    pub text: Seq<char>,
    pub color: Role,
}

impl View for ManualPart {
    type V = PartView;

    open spec fn view(&self) -> PartView {
        PartView { text: self.text@, color: self.color }
    }
}

/// The values of a list of parts.
pub open spec fn parts_view(ps: Seq<ManualPart>) -> Seq<PartView> {
    ps.map_values(|p: ManualPart| p@)
}

/// `n` copies of `ch`.
pub open spec fn repeat(ch: char, n: nat) -> Seq<char> {
    Seq::new(n, |i: int| ch)
}

/// The vertical bar of the frame.
pub open spec fn bar(ascii: bool) -> Seq<char> {
    if ascii {
        seq!['|']
    } else {
        seq!['\u{2502}']
    }
}

/// A horizontal rule of the frame between the corner characters `left`
/// and `right`, or of `+` and `-` in the ASCII frame.
pub open spec fn rule_line(width: nat, c: ManualColors, ascii: bool, left: char, right: char) -> Seq<char> {
    if ascii {
        c.border@ + seq!['+'] + repeat('-', width + 4) + seq!['+'] + c.reset@
    } else {
        c.border@ + seq![left] + repeat('\u{2500}', width + 4) + seq![right] + c.reset@
    }
}

/// The top of the frame.
pub open spec fn top_text(width: nat, c: ManualColors, ascii: bool) -> Seq<char> {
    rule_line(width, c, ascii, '\u{250c}', '\u{2510}')
}

/// A separator across the frame.
pub open spec fn separator_text(width: nat, c: ManualColors, ascii: bool) -> Seq<char> {
    rule_line(width, c, ascii, '\u{251c}', '\u{2524}')
}

/// The bottom of the frame.
pub open spec fn bottom_text(width: nat, c: ManualColors, ascii: bool) -> Seq<char> {
    rule_line(width, c, ascii, '\u{2514}', '\u{2518}')
}

/// An empty line in the frame (a rule in the ASCII frame).
pub open spec fn blank_text(width: nat, c: ManualColors, ascii: bool) -> Seq<char> {
    if ascii {
        rule_line(width, c, ascii, '+', '+')
    } else {
        c.border@ + bar(ascii) + c.reset@ + repeat(' ', 2) + repeat(' ', width) + repeat(' ', 2) + c.border@ + bar(
            ascii,
        ) + c.reset@
    }
}

/// `a - b`, or 0 where `b` is larger.
pub open spec fn minus(a: nat, b: nat) -> nat {
    if a >= b {
        (a - b) as nat
    } else {
        0
    }
}

/// A line of text in colour `color`, padded to the width.
pub open spec fn line_text(text: Seq<char>, width: nat, color: Seq<char>, c: ManualColors, ascii: bool) -> Seq<char> {
    c.border@ + bar(ascii) + c.reset@ + repeat(' ', 2) + color + text + c.reset@ + repeat(' ', minus(width, text.len()))
        + repeat(' ', 2) + c.border@ + bar(ascii) + c.reset@
}

/// The start of an indented line.
pub open spec fn left_text(indent: nat, c: ManualColors, ascii: bool) -> Seq<char> {
    c.border@ + bar(ascii) + c.reset@ + repeat(' ', 2) + repeat(' ', indent)
}

/// The end of a line of which `used` columns of `width` are taken.
pub open spec fn right_text(width: nat, used: nat, c: ManualColors, ascii: bool) -> Seq<char> {
    repeat(' ', minus(width, used) + 2) + c.border@ + bar(ascii) + c.reset@
}

/// An option and its description, the description at column 28.
pub open spec fn option_text(option: Seq<char>, description: Seq<char>, width: nat, c: ManualColors, ascii: bool) -> Seq<char> {
    left_text(2, c, ascii) + c.option@ + option + c.reset@ + repeat(' ', minus(28, option.len())) + c.text@
        + description + c.reset@ + right_text(minus(width, 2), 28 + description.len(), c, ascii)
}

fn push_repeat(out: &mut Vec<char>, ch: char, n: usize)
    ensures
        final(out)@ == old(out)@ + repeat(ch, n as nat),
{
    let mut i: usize = 0;
    while i < n
        invariant
            i <= n,
            out@ == old(out)@ + repeat(ch, i as nat),
        decreases n - i,
    {
        out.push(ch);
        i = i + 1;
        assert(out@ =~= old(out)@ + repeat(ch, i as nat));
    }
}

fn push_bar(out: &mut Vec<char>, ascii: bool)
    ensures
        final(out)@ == old(out)@ + bar(ascii),
{
    if ascii {
        out.push('|');
    } else {
        out.push('\u{2502}');
    }
    assert(out@ =~= old(out)@ + bar(ascii));
}

fn rule_string(width: usize, c: &ManualColors, ascii: bool, left: char, right: char) -> (s: String)
    requires
        width + 4 <= usize::MAX,
    ensures
        s@ == rule_line(width as nat, *c, ascii, left, right),
{
    let mut out: Vec<char> = Vec::new();
    push_str(&mut out, c.border);
    if ascii {
        out.push('+');
        push_repeat(&mut out, '-', width + 4);
        out.push('+');
    } else {
        out.push(left);
        push_repeat(&mut out, '\u{2500}', width + 4);
        out.push(right);
    }
    push_str(&mut out, c.reset);
    assert(out@ =~= rule_line(width as nat, *c, ascii, left, right));
    string_from_chars(out.as_slice())
}

/// The top of the frame.
pub fn top_border_line(width: usize, colors: &ManualColors, ascii: bool) -> (s: String)
    requires
        width + 4 <= usize::MAX,
    ensures
        s@ == top_text(width as nat, *colors, ascii),
{
    rule_string(width, colors, ascii, '\u{250c}', '\u{2510}')
}

/// A separator across the frame.
pub fn separator_line(width: usize, colors: &ManualColors, ascii: bool) -> (s: String)
    requires
        width + 4 <= usize::MAX,
    ensures
        s@ == separator_text(width as nat, *colors, ascii),
{
    rule_string(width, colors, ascii, '\u{251c}', '\u{2524}')
}

/// The bottom of the frame.
pub fn bottom_border_line(width: usize, colors: &ManualColors, ascii: bool) -> (s: String)
    requires
        width + 4 <= usize::MAX,
    ensures
        s@ == bottom_text(width as nat, *colors, ascii),
{
    rule_string(width, colors, ascii, '\u{2514}', '\u{2518}')
}

/// An empty line in the frame.
pub fn blank_line(width: usize, colors: &ManualColors, ascii: bool) -> (s: String)
    requires
        width + 4 <= usize::MAX,
    ensures
        s@ == blank_text(width as nat, *colors, ascii),
{
    if ascii {
        return rule_string(width, colors, ascii, '+', '+');
    }
    let mut out: Vec<char> = Vec::new();
    push_str(&mut out, colors.border);
    push_bar(&mut out, ascii);
    push_str(&mut out, colors.reset);
    push_repeat(&mut out, ' ', 2);
    push_repeat(&mut out, ' ', width);
    push_repeat(&mut out, ' ', 2);
    push_str(&mut out, colors.border);
    push_bar(&mut out, ascii);
    push_str(&mut out, colors.reset);
    assert(out@ =~= blank_text(width as nat, *colors, ascii));
    string_from_chars(out.as_slice())
}

/// A line of `text` in `color`, padded to the width.
pub fn text_line(text: &str, width: usize, color: &str, colors: &ManualColors, ascii: bool) -> (s: String)
    ensures
        s@ == line_text(text@, width as nat, color@, *colors, ascii),
{
    let cs = chars_of(text);
    let padding = if width >= cs.len() {
        width - cs.len()
    } else {
        0
    };
    let mut out: Vec<char> = Vec::new();
    push_str(&mut out, colors.border);
    push_bar(&mut out, ascii);
    push_str(&mut out, colors.reset);
    push_repeat(&mut out, ' ', 2);
    push_str(&mut out, color);
    push_str(&mut out, text);
    push_str(&mut out, colors.reset);
    push_repeat(&mut out, ' ', padding);
    push_repeat(&mut out, ' ', 2);
    push_str(&mut out, colors.border);
    push_bar(&mut out, ascii);
    push_str(&mut out, colors.reset);
    assert(out@ =~= line_text(text@, width as nat, color@, *colors, ascii));
    string_from_chars(out.as_slice())
}

fn push_left(out: &mut Vec<char>, indent: usize, c: &ManualColors, ascii: bool)
    ensures
        final(out)@ == old(out)@ + left_text(indent as nat, *c, ascii),
{
    push_str(out, c.border);
    push_bar(out, ascii);
    push_str(out, c.reset);
    push_repeat(out, ' ', 2);
    push_repeat(out, ' ', indent);
    assert(out@ =~= old(out)@ + left_text(indent as nat, *c, ascii));
}

fn push_right(out: &mut Vec<char>, width: usize, used: usize, c: &ManualColors, ascii: bool)
    requires
        width + 2 <= usize::MAX,
    ensures
        final(out)@ == old(out)@ + right_text(width as nat, used as nat, *c, ascii),
{
    let padding = if width >= used {
        width - used
    } else {
        0
    };
    push_repeat(out, ' ', padding + 2);
    push_str(out, c.border);
    push_bar(out, ascii);
    push_str(out, c.reset);
    assert(out@ =~= old(out)@ + right_text(width as nat, used as nat, *c, ascii));
}

/// An option and its description.
pub fn option_line(option: &str, description: &str, width: usize, colors: &ManualColors, ascii: bool) -> (s: String)
    requires
        width + 2 <= usize::MAX,
        description@.len() + 28 <= usize::MAX,
    ensures
        s@ == option_text(option@, description@, width as nat, *colors, ascii),
{
    let o = chars_of(option);
    let d = chars_of(description);
    let gap = if o.len() <= 28 {
        28 - o.len()
    } else {
        0
    };
    let content = if width >= 2 {
        width - 2
    } else {
        0
    };
    let mut out: Vec<char> = Vec::new();
    push_left(&mut out, 2, colors, ascii);
    push_str(&mut out, colors.option);
    push_str(&mut out, option);
    push_str(&mut out, colors.reset);
    push_repeat(&mut out, ' ', gap);
    push_str(&mut out, colors.text);
    push_str(&mut out, description);
    push_str(&mut out, colors.reset);
    push_right(&mut out, content, 28 + d.len(), colors, ascii);
    assert(out@ =~= option_text(option@, description@, width as nat, *colors, ascii));
    string_from_chars(out.as_slice())
}

/// The words of `t` so far and the word being read, reading left to right.
pub open spec fn split_state(t: Seq<char>) -> (Seq<Seq<char>>, Seq<char>)
    decreases t.len(),
{
    if t.len() == 0 {
        (seq![], seq![])
    } else {
        let (ws, cur) = split_state(t.drop_last());
        if is_white_space(t.last()) {
            if cur.len() > 0 {
                (ws.push(cur), seq![])
            } else {
                (ws, cur)
            }
        } else {
            (ws, cur.push(t.last()))
        }
    }
}

/// The words of `t`, the maximal runs of non-white-space characters
/// (`str::split_whitespace`).
pub open spec fn split_words(t: Seq<char>) -> Seq<Seq<char>> {
    let (ws, cur) = split_state(t);
    if cur.len() > 0 {
        ws.push(cur)
    } else {
        ws
    }
}

/// The words of `text`, in order.
pub fn words_of(text: &str) -> (r: Vec<Vec<char>>)
    ensures
        r@.map_values(|w: Vec<char>| w@) == split_words(text@),
{
    let cs = chars_of(text);
    let mut ws: Vec<Vec<char>> = Vec::new();
    let mut cur: Vec<char> = Vec::new();
    let mut i: usize = 0;
    while i < cs.len()
        invariant
            i <= cs@.len(),
            cs@ == text@,
            (ws@.map_values(|w: Vec<char>| w@), cur@) == split_state(cs@.subrange(0, i as int)),
        decreases cs@.len() - i,
    {
        assert(cs@.subrange(0, i + 1).drop_last() =~= cs@.subrange(0, i as int));
        let c = cs[i];
        if white_space(c) {
            if cur.len() > 0 {
                let ghost before = ws@;
                let word = cur;
                ws.push(word);
                assert(ws@.map_values(|w: Vec<char>| w@) =~= before.map_values(|w: Vec<char>| w@).push(word@));
                cur = Vec::new();
            }
        } else {
            cur.push(c);
        }
        i = i + 1;
    }
    assert(cs@.subrange(0, cs@.len() as int) =~= cs@);
    if cur.len() > 0 {
        let ghost before = ws@;
        let word = cur;
        ws.push(word);
        assert(ws@.map_values(|w: Vec<char>| w@) =~= before.map_values(|w: Vec<char>| w@).push(word@));
    }
    ws
}

/// The words of a paragraph, each with its colour.
pub open spec fn paragraph_words(parts: Seq<PartView>, c: ManualColors) -> Seq<(Seq<char>, Seq<char>)>
    decreases parts.len(),
{
    if parts.len() == 0 {
        seq![]
    } else {
        let last = parts.last();
        paragraph_words(parts.drop_last(), c) + split_words(last.text).map_values(
            |w: Seq<char>| (w, word_color(c, last.color)),
        )
    }
}

/// Where a paragraph stands: its finished lines, the line being filled and
/// the columns that line takes.
pub struct WrapState {
    pub done: Seq<Seq<char>>,
    pub cur: Seq<char>,
    pub width: nat,
}

/// Adds a word to a paragraph: where it does not fit in `width` columns
/// after a space, the line is finished and a new one begun; the word is
/// put there even if it is wider than the line.
pub open spec fn wrap_word(
    st: WrapState,
    word: (Seq<char>, Seq<char>),
    width: nat,
    indent: nat,
    c: ManualColors,
    ascii: bool,
) -> WrapState {
    let sep: nat = if st.width > 0 { 1 } else { 0 };
    let broken = st.width + sep + word.0.len() > width;
    let done = if broken { st.done.push(st.cur + right_text(width, st.width, c, ascii)) } else { st.done };
    let cur = if broken { left_text(indent, c, ascii) } else { st.cur };
    let used: nat = if broken { 0 } else { st.width };
    let cur = if used > 0 { cur + seq![' '] } else { cur };
    let used: nat = if used > 0 { used + 1 } else { used };
    WrapState { done, cur: cur + word.1 + word.0 + c.reset@, width: used + word.0.len() }
}

/// The state after adding `words` to an empty paragraph.
pub open spec fn wrap_all(
    words: Seq<(Seq<char>, Seq<char>)>,
    width: nat,
    indent: nat,
    c: ManualColors,
    ascii: bool,
) -> WrapState
    decreases words.len(),
{
    if words.len() == 0 {
        WrapState { done: seq![], cur: left_text(indent, c, ascii), width: 0 }
    } else {
        wrap_word(wrap_all(words.drop_last(), width, indent, c, ascii), words.last(), width, indent, c, ascii)
    }
}

/// The lines of a paragraph of `parts` indented by `indent`, wrapped to
/// the width left of `width` after the indent.
pub open spec fn paragraph_text(parts: Seq<PartView>, width: nat, indent: nat, c: ManualColors, ascii: bool) -> Seq<
    Seq<char>,
> {
    let cw = minus(width, indent);
    let st = wrap_all(paragraph_words(parts, c), cw, indent, c, ascii);
    st.done.push(st.cur + right_text(cw, st.width, c, ascii))
}

fn word_code(c: &ManualColors, r: Role) -> (s: &'static str)
    ensures
        s@ == word_color(*c, r),
{
    let code = role_code(c, r);
    let cs = chars_of(code);
    if cs.len() == 0 {
        c.text
    } else {
        code
    }
}

/// A paragraph of `parts`, indented by `indent` and wrapped to the width.
pub fn indented_paragraph(parts: &[ManualPart], width: usize, indent: usize, colors: &ManualColors, ascii: bool) -> (lines: Vec<String>)
    requires
        width + 2 <= usize::MAX,
    ensures
        texts(lines@) == paragraph_text(parts_view(parts@), width as nat, indent as nat, *colors, ascii),
{
    let ghost pv = parts_view(parts@);
    let cw: usize = if width >= indent {
        width - indent
    } else {
        0
    };
    let ghost all = paragraph_words(pv, *colors);
    let mut done: Vec<String> = Vec::new();
    let mut cur: Vec<char> = Vec::new();
    push_left(&mut cur, indent, colors, ascii);
    let mut used: usize = 0;
    let mut p: usize = 0;
    while p < parts.len()
        invariant
            p <= parts@.len(),
            pv == parts_view(parts@),
            cw + 2 <= usize::MAX,
            cw == minus(width as nat, indent as nat),
            ({
                let st = wrap_all(paragraph_words(pv.subrange(0, p as int), *colors), cw as nat, indent as nat, *colors, ascii);
                texts(done@) == st.done && cur@ == st.cur && used == st.width
            }),
        decreases parts@.len() - p,
    {
        let part = parts[p];
        let words = words_of(part.text);
        let color = word_code(colors, part.color);
        let ghost before = paragraph_words(pv.subrange(0, p as int), *colors);
        let ghost mine = split_words(part.text@).map_values(|w: Seq<char>| (w, word_color(*colors, part.color)));
        assert(pv.subrange(0, p + 1).drop_last() =~= pv.subrange(0, p as int));
        assert(pv.subrange(0, p + 1).last() == part@);
        assert(paragraph_words(pv.subrange(0, p + 1), *colors) == before + mine);
        let mut k: usize = 0;
        while k < words.len()
            invariant
                k <= words@.len(),
                cw + 2 <= usize::MAX,
                words@.map_values(|w: Vec<char>| w@) == split_words(part.text@),
                color@ == word_color(*colors, part.color),
                mine == split_words(part.text@).map_values(|w: Seq<char>| (w, word_color(*colors, part.color))),
                ({
                    let st = wrap_all(before + mine.subrange(0, k as int), cw as nat, indent as nat, *colors, ascii);
                    texts(done@) == st.done && cur@ == st.cur && used == st.width
                }),
            decreases words@.len() - k,
        {
            let word = &words[k];
            let ww = word.len();
            assert(mine[k as int] == (word@, color@));
            assert((before + mine.subrange(0, k + 1)).drop_last() =~= before + mine.subrange(0, k as int));
            assert((before + mine.subrange(0, k + 1)).last() == mine[k as int]);
            let sep: usize = if used > 0 {
                1
            } else {
                0
            };
            if cw < used || cw - used < sep || cw - used - sep < ww {
                let mut finished = cur;
                push_right(&mut finished, cw, used, colors, ascii);
                let ghost old_done = done@;
                done.push(string_from_chars(finished.as_slice()));
                assert(texts(done@) =~= texts(old_done).push(finished@));
                cur = Vec::new();
                push_left(&mut cur, indent, colors, ascii);
                used = 0;
            }
            if used > 0 {
                cur.push(' ');
                used = used + 1;
            }
            push_str(&mut cur, color);
            push_chars_vec(&mut cur, word);
            push_str(&mut cur, colors.reset);
            used = used + ww;
            k = k + 1;
            assert(cur@ =~= wrap_all(before + mine.subrange(0, k as int), cw as nat, indent as nat, *colors, ascii).cur);
        }
        assert(mine.subrange(0, words@.len() as int) =~= mine);
        p = p + 1;
    }
    assert(pv.subrange(0, parts@.len() as int) =~= pv);
    push_right(&mut cur, cw, used, colors, ascii);
    let ghost old_done = done@;
    done.push(string_from_chars(cur.as_slice()));
    assert(texts(done@) =~= texts(old_done).push(cur@));
    done
}

fn push_chars_vec(out: &mut Vec<char>, cs: &Vec<char>)
    ensures
        final(out)@ == old(out)@ + cs@,
{
    let mut i: usize = 0;
    while i < cs.len()
        invariant
            i <= cs@.len(),
            out@ == old(out)@ + cs@.subrange(0, i as int),
        decreases cs@.len() - i,
    {
        out.push(cs[i]);
        i = i + 1;
        assert(out@ =~= old(out)@ + cs@.subrange(0, i as int));
    }
    assert(cs@.subrange(0, cs@.len() as int) =~= cs@);
}

/// A piece of a framed document.
#[derive(Debug)]
pub enum ManualBlock {
    /// The top of the frame.
    Top,
    /// A separator across the frame.
    Separator,
    /// The bottom of the frame.
    Bottom,
    /// An empty line.
    Blank,
    /// A line of text in the colour of a role.
    Line(&'static str, Role),
    /// An option and its description.
    OptionLine(&'static str, &'static str),
    /// A paragraph with an indent.
    Paragraph(Vec<ManualPart>, usize),
    /// A described example: the description, the command, an empty line.
    Example(Vec<ManualPart>, &'static str),
    /// A section heading between a separator and empty lines.
    Section(&'static str),
    /// A paragraph of the manual, then an empty line.
    ManualParagraph(Vec<ManualPart>),
    /// A subsection: its title, its indented text, an empty line.
    Subsection(&'static str, Vec<ManualPart>),
}

/// A piece of a framed document, as a value.
pub enum BlockView {
    Top,
    Separator,
    Bottom,
    Blank,
    Line(Seq<char>, Role),
    OptionLine(Seq<char>, Seq<char>),
    Paragraph(Seq<PartView>, nat),
    Example(Seq<PartView>, Seq<char>),
    Section(Seq<char>),
    ManualParagraph(Seq<PartView>),
    Subsection(Seq<char>, Seq<PartView>),
}

impl View for ManualBlock {
    type V = BlockView;

    open spec fn view(&self) -> BlockView {
        match self {
            ManualBlock::Top => BlockView::Top,
            ManualBlock::Separator => BlockView::Separator,
            ManualBlock::Bottom => BlockView::Bottom,
            ManualBlock::Blank => BlockView::Blank,
            ManualBlock::Line(t, r) => BlockView::Line(t@, *r),
            ManualBlock::OptionLine(o, d) => BlockView::OptionLine(o@, d@),
            ManualBlock::Paragraph(parts, indent) => BlockView::Paragraph(parts_view(parts@), *indent as nat),
            ManualBlock::Example(parts, command) => BlockView::Example(parts_view(parts@), command@),
            ManualBlock::Section(t) => BlockView::Section(t@),
            ManualBlock::ManualParagraph(parts) => BlockView::ManualParagraph(parts_view(parts@)),
            ManualBlock::Subsection(t, parts) => BlockView::Subsection(t@, parts_view(parts@)),
        }
    }
}

/// The values of a list of blocks.
pub open spec fn blocks_view(bs: Seq<ManualBlock>) -> Seq<BlockView> {
    bs.map_values(|b: ManualBlock| b@)
}

/// The lines of one block.
pub open spec fn block_text(b: BlockView, width: nat, c: ManualColors, ascii: bool) -> Seq<Seq<char>> {
    match b {
        BlockView::Top => seq![top_text(width, c, ascii)],
        BlockView::Separator => seq![separator_text(width, c, ascii)],
        BlockView::Bottom => seq![bottom_text(width, c, ascii)],
        BlockView::Blank => seq![blank_text(width, c, ascii)],
        BlockView::Line(t, r) => seq![line_text(t, width, role_color(c, r), c, ascii)],
        BlockView::OptionLine(o, d) => seq![option_text(o, d, width, c, ascii)],
        BlockView::Paragraph(parts, indent) => paragraph_text(parts, width, indent, c, ascii),
        BlockView::Example(parts, command) => paragraph_text(parts, width, 2, c, ascii) + paragraph_text(
            seq![PartView { text: command, color: Role::Example }],
            width,
            4,
            c,
            ascii,
        ) + seq![blank_text(width, c, ascii)],
        BlockView::Section(t) => seq![
            separator_text(width, c, ascii),
            blank_text(width, c, ascii),
            line_text(t, width, c.title@, c, ascii),
            blank_text(width, c, ascii),
        ],
        BlockView::ManualParagraph(parts) => paragraph_text(parts, width, 2, c, ascii) + seq![
            blank_text(width, c, ascii),
        ],
        BlockView::Subsection(t, parts) => paragraph_text(
            seq![PartView { text: t, color: Role::Accent }],
            width,
            2,
            c,
            ascii,
        ) + paragraph_text(parts, width, 4, c, ascii) + seq![blank_text(width, c, ascii)],
    }
}

/// The lines of a document.
pub open spec fn document_text(blocks: Seq<BlockView>, width: nat, c: ManualColors, ascii: bool) -> Seq<Seq<char>>
    decreases blocks.len(),
{
    if blocks.len() == 0 {
        seq![]
    } else {
        document_text(blocks.drop_last(), width, c, ascii) + block_text(blocks.last(), width, c, ascii)
    }
}

/// Whether every option description leaves room for its column.
pub open spec fn descriptions_fit(blocks: Seq<BlockView>) -> bool {
    forall|i: int| 0 <= i < blocks.len() ==> #[trigger] description_fits(blocks[i])
}

/// Whether a block is no option line, or one whose description leaves
/// room for its column.
pub open spec fn description_fits(b: BlockView) -> bool {
    match b {
        BlockView::OptionLine(_, d) => d.len() + 28 <= usize::MAX,
        _ => true,
    }
}

fn push_lines(out: &mut Vec<String>, more: Vec<String>)
    ensures
        texts(final(out)@) == texts(old(out)@) + texts(more@),
{
    let mut i: usize = 0;
    while i < more.len()
        invariant
            i <= more@.len(),
            texts(out@) == texts(old(out)@) + texts(more@).subrange(0, i as int),
        decreases more@.len() - i,
    {
        let ghost before = out@;
        out.push(more[i].clone());
        assert(texts(out@) =~= texts(before).push(more@[i as int]@));
        i = i + 1;
        assert(texts(out@) =~= texts(old(out)@) + texts(more@).subrange(0, i as int));
    }
    assert(texts(more@).subrange(0, more@.len() as int) =~= texts(more@));
}

fn push_one(out: &mut Vec<String>, line: String)
    ensures
        texts(final(out)@) == texts(old(out)@).push(line@),
{
    out.push(line);
    assert(texts(out@) =~= texts(old(out)@).push(line@));
}

/// A described example: the description, the command, an empty line.
pub fn example_lines(description: &[ManualPart], command: &'static str, width: usize, colors: &ManualColors, ascii: bool) -> (lines: Vec<String>)
    requires
        width + 4 <= usize::MAX,
    ensures
        texts(lines@) == paragraph_text(parts_view(description@), width as nat, 2, *colors, ascii) + paragraph_text(
            seq![PartView { text: command@, color: Role::Example }],
            width as nat,
            4,
            *colors,
            ascii,
        ) + seq![blank_text(width as nat, *colors, ascii)],
{
    let mut lines = indented_paragraph(description, width, 2, colors, ascii);
    let cmd = vec![ManualPart { text: command, color: Role::Example }];
    assert(parts_view(cmd@) =~= seq![PartView { text: command@, color: Role::Example }]);
    push_lines(&mut lines, indented_paragraph(cmd.as_slice(), width, 4, colors, ascii));
    push_one(&mut lines, blank_line(width, colors, ascii));
    lines
}

/// A section heading: a separator, an empty line, the title, an empty line.
pub fn manual_section_lines(title: &str, width: usize, colors: &ManualColors, ascii: bool) -> (lines: Vec<String>)
    requires
        width + 4 <= usize::MAX,
    ensures
        texts(lines@) == seq![
            separator_text(width as nat, *colors, ascii),
            blank_text(width as nat, *colors, ascii),
            line_text(title@, width as nat, colors.title@, *colors, ascii),
            blank_text(width as nat, *colors, ascii),
        ],
{
    let mut lines: Vec<String> = Vec::new();
    push_one(&mut lines, separator_line(width, colors, ascii));
    push_one(&mut lines, blank_line(width, colors, ascii));
    push_one(&mut lines, text_line(title, width, colors.title, colors, ascii));
    push_one(&mut lines, blank_line(width, colors, ascii));
    assert(texts(lines@) =~= seq![
        separator_text(width as nat, *colors, ascii),
        blank_text(width as nat, *colors, ascii),
        line_text(title@, width as nat, colors.title@, *colors, ascii),
        blank_text(width as nat, *colors, ascii),
    ]);
    lines
}

/// A paragraph of the manual, then an empty line.
pub fn manual_paragraph_lines(parts: &[ManualPart], width: usize, colors: &ManualColors, ascii: bool) -> (lines: Vec<String>)
    requires
        width + 4 <= usize::MAX,
    ensures
        texts(lines@) == paragraph_text(parts_view(parts@), width as nat, 2, *colors, ascii) + seq![
            blank_text(width as nat, *colors, ascii),
        ],
{
    let mut lines = indented_paragraph(parts, width, 2, colors, ascii);
    push_one(&mut lines, blank_line(width, colors, ascii));
    lines
}

/// A subsection: its title in the accent colour, its text indented
/// further, an empty line.
pub fn manual_subsection_lines(title: &'static str, parts: &[ManualPart], width: usize, colors: &ManualColors, ascii: bool) -> (lines: Vec<String>)
    requires
        width + 4 <= usize::MAX,
    ensures
        texts(lines@) == paragraph_text(seq![PartView { text: title@, color: Role::Accent }], width as nat, 2, *colors, ascii)
            + paragraph_text(parts_view(parts@), width as nat, 4, *colors, ascii) + seq![blank_text(width as nat, *colors, ascii)],
{
    let head = vec![ManualPart { text: title, color: Role::Accent }];
    assert(parts_view(head@) =~= seq![PartView { text: title@, color: Role::Accent }]);
    let mut lines = indented_paragraph(head.as_slice(), width, 2, colors, ascii);
    push_lines(&mut lines, indented_paragraph(parts, width, 4, colors, ascii));
    push_one(&mut lines, blank_line(width, colors, ascii));
    lines
}

/// The lines of one block.
pub fn block_lines(block: &ManualBlock, width: usize, colors: &ManualColors, ascii: bool) -> (lines: Vec<String>)
    requires
        width + 4 <= usize::MAX,
        description_fits(block@),
    ensures
        texts(lines@) == block_text(block@, width as nat, *colors, ascii),
{
    let mut lines: Vec<String> = Vec::new();
    match block {
        ManualBlock::Top => push_one(&mut lines, top_border_line(width, colors, ascii)),
        ManualBlock::Separator => push_one(&mut lines, separator_line(width, colors, ascii)),
        ManualBlock::Bottom => push_one(&mut lines, bottom_border_line(width, colors, ascii)),
        ManualBlock::Blank => push_one(&mut lines, blank_line(width, colors, ascii)),
        ManualBlock::Line(t, r) => push_one(&mut lines, text_line(t, width, role_code(colors, *r), colors, ascii)),
        ManualBlock::OptionLine(o, d) => push_one(&mut lines, option_line(o, d, width, colors, ascii)),
        ManualBlock::Paragraph(parts, indent) => {
            return indented_paragraph(parts.as_slice(), width, *indent, colors, ascii);
        },
        ManualBlock::Example(parts, command) => {
            return example_lines(parts.as_slice(), command, width, colors, ascii);
        },
        ManualBlock::Section(t) => {
            return manual_section_lines(t, width, colors, ascii);
        },
        ManualBlock::ManualParagraph(parts) => {
            return manual_paragraph_lines(parts.as_slice(), width, colors, ascii);
        },
        ManualBlock::Subsection(t, parts) => {
            return manual_subsection_lines(t, parts.as_slice(), width, colors, ascii);
        },
    }
    lines
}

/// The lines of a document.
pub fn render_document(blocks: &Vec<ManualBlock>, width: usize, colors: &ManualColors, ascii: bool) -> (lines: Vec<String>)
    requires
        width + 4 <= usize::MAX,
        descriptions_fit(blocks_view(blocks@)),
    ensures
        texts(lines@) == document_text(blocks_view(blocks@), width as nat, *colors, ascii),
{
    let mut lines: Vec<String> = Vec::new();
    let mut i: usize = 0;
    while i < blocks.len()
        invariant
            i <= blocks@.len(),
            width + 4 <= usize::MAX,
            descriptions_fit(blocks_view(blocks@)),
            texts(lines@) == document_text(blocks_view(blocks@).subrange(0, i as int), width as nat, *colors, ascii),
        decreases blocks@.len() - i,
    {
        assert(blocks_view(blocks@).subrange(0, i + 1).drop_last() =~= blocks_view(blocks@).subrange(0, i as int));
        assert(blocks_view(blocks@)[i as int] == blocks@[i as int]@);
        let more = block_lines(&blocks[i], width, colors, ascii);
        push_lines(&mut lines, more);
        i = i + 1;
    }
    assert(blocks_view(blocks@).subrange(0, blocks@.len() as int) =~= blocks_view(blocks@));
    lines
}

/// `t` without a leading `+`.
pub open spec fn digits_part(t: Seq<char>) -> Seq<char> {
    if t.len() > 0 && t[0] == '+' {
        t.skip(1)
    } else {
        t
    }
}

/// Whether every character of `d` is an ASCII digit.
pub open spec fn all_digits(d: Seq<char>) -> bool {
    forall|i: int| 0 <= i < d.len() ==> is_digit_char(#[trigger] d[i])
}

/// The number that `str::parse::<usize>` reads from `t`: an optional `+`
/// and one or more ASCII digits, of a value that fits in a `usize`.
pub open spec fn usize_value(t: Seq<char>) -> Option<nat> {
    let d = digits_part(t);
    if d.len() > 0 && all_digits(d) && numeral_value(d) <= usize::MAX {
        Some(numeral_value(d))
    } else {
        None
    }
}

/// The terminal width that a `COLUMNS` value gives: a positive number.
pub open spec fn columns_width(value: Seq<char>) -> Option<nat> {
    match usize_value(value) {
        Some(n) => if n > 0 {
            Some(n)
        } else {
            None
        },
        None => None,
    }
}

/// The terminal width that a `COLUMNS` value gives (see `columns_width`).
pub fn parse_columns(value: &str) -> (r: Option<usize>)
    ensures
        match r {
            Some(n) => columns_width(value@) == Some(n as nat),
            None => columns_width(value@) is None,
        },
{
    let cs = chars_of(value);
    assert(cs@ == value@);
    let n = cs.len();
    let start: usize = if n > 0 && cs[0] == '+' {
        1
    } else {
        0
    };
    let ghost d = digits_part(value@);
    assert(d =~= cs@.subrange(start as int, n as int));
    if start == n {
        return None;
    }
    let mut i: usize = start;
    while i < n
        invariant
            start <= i <= n,
            n == cs@.len(),
            d == cs@.subrange(start as int, n as int),
            cs@ == value@,
            d == digits_part(value@),
            forall|k: int| start <= k < i ==> is_digit_char(cs@[k]),
        decreases n - i,
    {
        if !('0' <= cs[i] && cs[i] <= '9') {
            assert(d[i - start] == cs@[i as int]);
            assert(!is_digit_char(d[i - start]));
            assert(!all_digits(d));
            return None;
        }
        i = i + 1;
    }
    assert forall|k: int| 0 <= k < d.len() implies is_digit_char(#[trigger] d[k]) by {
        assert(d[k] == cs@[k + start]);
    }
    assert(all_digits(d));
    match numeral(cs.as_slice(), start, n) {
        Some(v) => {
            if v > usize::MAX as u64 {
                return None;
            }
            let w = v as usize;
            if w == 0 {
                None
            } else {
                Some(w)
            }
        },
        None => None,
    }
}

/// The terminal width: the one the terminal reports where it is positive,
/// else a positive `COLUMNS` value, else 80.
pub open spec fn width_of(reported: Option<usize>, columns: Option<Seq<char>>) -> nat {
    match reported {
        Some(w) if w > 0 => w as nat,
        _ => match columns {
            Some(c) => match columns_width(c) {
                Some(n) => n,
                None => 80,
            },
            None => 80,
        },
    }
}

/// The terminal width, from the width the terminal reports (where any of
/// the standard streams is a terminal; a width of 0 counts as none) and the
/// value of `COLUMNS`, where it is set.
pub fn terminal_width(reported: Option<usize>, columns: &Option<String>) -> (r: usize)
    ensures
        r == width_of(
            reported,
            match columns {
                Some(c) => Some(c@),
                None => None,
            },
        ),
{
    match reported {
        Some(w) if w > 0 => w,
        _ => match columns {
            Some(c) => match parse_columns(c.as_str()) {
                Some(n) => n,
                None => 80,
            },
            None => 80,
        },
    }
}

/// The width inside the frame for a terminal `terminal_width` columns
/// wide: eight less, kept between 40 and 96.
pub open spec fn inner_width(terminal_width: nat) -> nat {
    let a = minus(terminal_width, 8);
    if a < 40 {
        40
    } else if a > 96 {
        96
    } else {
        a
    }
}

/// The width inside the frame (see `inner_width`).
pub fn manual_inner_width(terminal_width: usize) -> (r: usize)
    ensures
        r == inner_width(terminal_width as nat),
        40 <= r <= 96,
{
    let available = if terminal_width >= 8 {
        terminal_width - 8
    } else {
        0
    };
    if available < 40 {
        40
    } else if available > 96 {
        96
    } else {
        available
    }
}

/// Whether the frame is drawn in ASCII: on a NetBSD console, where the
/// standard output is the terminal `tty` (a `/dev/ttyE` device, the
/// console or `constty`) whose glyphs lack the box-drawing characters.
pub open spec fn ascii_frame(os: TargetOs, tty: Option<Seq<u8>>) -> bool {
    os == TargetOs::NetBsd && match tty {
        Some(t) => {
            let name = utf8_lossy(t);
            ||| (name.len() >= 9 && name.subrange(0, 9) == "/dev/ttyE"@)
            ||| name == "/dev/console"@
            ||| name == "/dev/constty"@
        },
        None => false,
    }
}

/// Whether the frame is drawn in ASCII (see `ascii_frame`). `tty` is the
/// name of the terminal on the standard output, `None` where it is none.
pub fn use_ascii_frame(os: TargetOs, tty: &Option<Vec<u8>>) -> (r: bool)
    ensures
        r == ascii_frame(
            os,
            match tty {
                Some(t) => Some(t@),
                None => None,
            },
        ),
{
    if os != TargetOs::NetBsd {
        return false;
    }
    match tty {
        Some(t) => {
            let text = lossy_text(t.as_slice());
            let name = chars_of(text.as_str());
            let prefix = chars_of("/dev/ttyE");
            let console = chars_of("/dev/console");
            let constty = chars_of("/dev/constty");
            proof {
                reveal_strlit("/dev/ttyE");
            }
            let long = name.len() >= 9;
            let mut starts = long;
            let ghost mut bad: int = 0;
            let mut i: usize = 0;
            while starts && i < 9
                invariant
                    i <= 9,
                    prefix@ == "/dev/ttyE"@,
                    prefix@.len() == 9,
                    long == (name@.len() >= 9),
                    starts ==> long && forall|k: int| 0 <= k < i ==> name@[k] == prefix@[k],
                    long && !starts ==> 0 <= bad < 9 && name@[bad] != prefix@[bad],
                decreases 9 - i,
            {
                if name[i] != prefix[i] {
                    starts = false;
                    proof {
                        bad = i as int;
                    }
                }
                i = i + 1;
            }
            proof {
                if starts {
                    assert(name@.subrange(0, 9) =~= "/dev/ttyE"@);
                } else if long {
                    assert(name@.subrange(0, 9)[bad] != prefix@[bad]);
                }
            }
            starts || crate::size::chars_equal(name.as_slice(), console.as_slice()) || crate::size::chars_equal(
                name.as_slice(),
                constty.as_slice(),
            )
        },
        None => false,
    }
}

} // verus!