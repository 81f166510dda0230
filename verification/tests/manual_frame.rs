use nightkrawler::classify::TargetOs;
use nightkrawler::manual::{
    indented_paragraph, manual_inner_width, parse_columns, render_document, terminal_width, top_border_line,
    use_ascii_frame, ManualBlock, ManualColors, ManualPart, Role,
};
use nightkrawler::manual_text::{
    classification_document, help_document, manual_document, print_classification_help, print_help, print_manual,
};

struct Out {
    lines: Vec<String>,
    cur: String,
}

impl Out {
    fn print(&mut self, s: &str) {
        self.cur.push_str(s);
    }
    fn println(&mut self, s: &str) {
        self.cur.push_str(s);
        self.lines.push(std::mem::take(&mut self.cur));
    }
}

fn role(c: &ManualColors, r: Role) -> &'static str {
    match r {
        Role::Accent => c.accent,
        Role::Text => c.text,
        Role::Emphasis => c.emphasis,
        Role::Title => c.title,
        Role::Example => c.example,
        Role::Option => c.option,
    }
}

fn rule(o: &mut Out, width: usize, c: &ManualColors, ascii: bool, l: &str, r: &str) {
    if ascii {
        o.println(&format!("{}+{}+{}", c.border, "-".repeat(width + 4), c.reset));
    } else {
        o.println(&format!("{}{}{}{}{}", c.border, l, "\u{2500}".repeat(width + 4), r, c.reset));
    }
}

fn bar(ascii: bool) -> &'static str {
    if ascii { "|" } else { "\u{2502}" }
}

fn blank(o: &mut Out, width: usize, c: &ManualColors, ascii: bool) {
    if ascii {
        rule(o, width, c, ascii, "+", "+");
    } else {
        o.println(&format!("{}\u{2502}{}  {}  {}\u{2502}{}", c.border, c.reset, " ".repeat(width), c.border, c.reset));
    }
}

fn line(o: &mut Out, text: &str, width: usize, color: &str, c: &ManualColors, ascii: bool) {
    let padding = width.saturating_sub(text.chars().count());
    o.println(&format!(
        "{}{}{}  {}{}{}{}  {}{}{}",
        c.border, bar(ascii), c.reset, color, text, c.reset, " ".repeat(padding), c.border, bar(ascii), c.reset
    ));
}

fn left(o: &mut Out, indent: usize, c: &ManualColors, ascii: bool) {
    o.print(&format!("{}{}{}  {}", c.border, bar(ascii), c.reset, " ".repeat(indent)));
}

fn right(o: &mut Out, width: usize, current: usize, c: &ManualColors, ascii: bool) {
    let padding = width.saturating_sub(current);
    o.println(&format!("{}{}{}{}", " ".repeat(padding + 2), c.border, bar(ascii), c.reset));
}

fn paragraph(o: &mut Out, parts: &[ManualPart], width: usize, indent: usize, c: &ManualColors, ascii: bool) {
    let content_width = width.saturating_sub(indent);
    let mut current = 0usize;
    left(o, indent, c, ascii);
    for part in parts {
        for word in part.text.split_whitespace() {
            let ww = word.chars().count();
            let sep = usize::from(current > 0);
            if current + sep + ww > content_width {
                right(o, content_width, current, c, ascii);
                current = 0;
                left(o, indent, c, ascii);
            }
            if current > 0 {
                o.print(" ");
                current += 1;
            }
            let color = role(c, part.color);
            if color.is_empty() {
                o.print(&format!("{}{}{}", c.text, word, c.reset));
            } else {
                o.print(&format!("{}{}{}", color, word, c.reset));
            }
            current += ww;
        }
    }
    right(o, content_width, current, c, ascii);
}

fn render(blocks: &[ManualBlock], width: usize, c: &ManualColors, ascii: bool) -> Vec<String> {
    let mut o = Out { lines: Vec::new(), cur: String::new() };
    for b in blocks {
        match b {
            ManualBlock::Top => rule(&mut o, width, c, ascii, "\u{250c}", "\u{2510}"),
            ManualBlock::Separator => rule(&mut o, width, c, ascii, "\u{251c}", "\u{2524}"),
            ManualBlock::Bottom => rule(&mut o, width, c, ascii, "\u{2514}", "\u{2518}"),
            ManualBlock::Blank => blank(&mut o, width, c, ascii),
            ManualBlock::Line(t, r) => line(&mut o, t, width, role(c, *r), c, ascii),
            ManualBlock::OptionLine(opt, desc) => {
                let content_width = width.saturating_sub(2);
                left(&mut o, 2, c, ascii);
                o.print(&format!("{}{}{}", c.option, opt, c.reset));
                o.print(&" ".repeat(28usize.saturating_sub(opt.chars().count())));
                o.print(&format!("{}{}{}", c.text, desc, c.reset));
                right(&mut o, content_width, 28 + desc.chars().count(), c, ascii);
            },
            ManualBlock::Paragraph(parts, indent) => paragraph(&mut o, parts, width, *indent, c, ascii),
            ManualBlock::Example(parts, command) => {
                paragraph(&mut o, parts, width, 2, c, ascii);
                paragraph(&mut o, &[ManualPart { text: command, color: Role::Example }], width, 4, c, ascii);
                blank(&mut o, width, c, ascii);
            },
            ManualBlock::Section(t) => {
                rule(&mut o, width, c, ascii, "\u{251c}", "\u{2524}");
                blank(&mut o, width, c, ascii);
                line(&mut o, t, width, c.title, c, ascii);
                blank(&mut o, width, c, ascii);
            },
            ManualBlock::ManualParagraph(parts) => {
                paragraph(&mut o, parts, width, 2, c, ascii);
                blank(&mut o, width, c, ascii);
            },
            ManualBlock::Subsection(t, parts) => {
                paragraph(&mut o, &[ManualPart { text: t, color: Role::Accent }], width, 2, c, ascii);
                paragraph(&mut o, parts, width, 4, c, ascii);
                blank(&mut o, width, c, ascii);
            },
        }
    }
    o.lines
}

#[test]
fn documents_render_as_the_framing_rules_say() {
    for width in [40usize, 41, 57, 72, 80, 96] {
        for ascii in [false, true] {
            for enabled in [false, true] {
                let c = ManualColors::new(enabled);
                assert_eq!(print_help(enabled, width, ascii), render(&help_document(), width, &c, ascii));
                for os in [TargetOs::Other, TargetOs::FreeBsd, TargetOs::NetBsd] {
                    assert_eq!(print_manual(enabled, width, ascii, os), render(&manual_document(os), width, &c, ascii));
                    assert_eq!(
                        print_classification_help(enabled, width, ascii, os),
                        render(&classification_document(os), width, &c, ascii)
                    );
                }
            }
        }
    }
}

#[test]
fn the_help_begins_and_ends_with_its_frame() {
    let lines = print_help(false, 40, false);
    assert_eq!(lines[0], format!("\u{250c}{}\u{2510}", "\u{2500}".repeat(44)));
    assert_eq!(lines[1], format!("\u{2502}  nightkrawler - duplicate file finder and removal tool  \u{2502}"));
    assert_eq!(lines.last().unwrap(), &format!("\u{2514}{}\u{2518}", "\u{2500}".repeat(44)));
    let ascii = print_help(false, 40, true);
    assert_eq!(ascii[0], format!("+{}+", "-".repeat(44)));
}

#[test]
fn os_specific_manual_lines() {
    let text = |os| print_manual(false, 96, false, os).join("\n");
    assert!(text(TargetOs::FreeBsd).contains("/usr/local/etc"));
    assert!(!text(TargetOs::Other).contains("/usr/local/etc"));
    assert!(text(TargetOs::NetBsd).contains("/usr/pkg/etc"));
}

#[test]
fn paragraphs_wrap_at_the_width() {
    let c = ManualColors::new(false);
    let parts = [ManualPart { text: "alpha beta  gamma\tdelta", color: Role::Text }];
    let lines = indented_paragraph(&parts, 14, 2, &c, false);
    assert_eq!(
        lines,
        vec![
            "\u{2502}    alpha beta    \u{2502}".to_string(),
            "\u{2502}    gamma delta   \u{2502}".to_string()
        ]
    );
    let long = [ManualPart { text: "abcdefghijklmnop", color: Role::Text }];
    let lines = indented_paragraph(&long, 10, 0, &c, true);
    assert_eq!(lines, vec![format!("|{}|", " ".repeat(14)), "|  abcdefghijklmnop  |".to_string()]);
    let empty: [ManualPart; 0] = [];
    assert_eq!(indented_paragraph(&empty, 4, 0, &c, true), vec!["|        |".to_string()]);
}

#[test]
fn coloured_words() {
    let c = ManualColors::new(true);
    let parts = [ManualPart { text: "a", color: Role::Option }, ManualPart { text: "b", color: Role::Text }];
    let lines = indented_paragraph(&parts, 40, 0, &c, false);
    assert!(lines[0].contains("\x1b[1;92ma\x1b[0m \x1b[37mb\x1b[0m"));
    assert_eq!(top_border_line(1, &c, true), "\x1b[1;30m+-----+\x1b[0m");
}

#[test]
fn terminal_widths() {
    assert_eq!(parse_columns("120"), Some(120));
    assert_eq!(parse_columns("+80"), Some(80));
    assert_eq!(parse_columns("0"), None);
    assert_eq!(parse_columns(""), None);
    assert_eq!(parse_columns("+"), None);
    assert_eq!(parse_columns("-3"), None);
    assert_eq!(parse_columns(" 80"), None);
    assert_eq!(parse_columns("99999999999999999999999"), None);
    assert_eq!(terminal_width(Some(132), &Some("90".to_string())), 132);
    assert_eq!(terminal_width(None, &Some("90".to_string())), 90);
    assert_eq!(terminal_width(None, &Some("wide".to_string())), 80);
    assert_eq!(terminal_width(None, &None), 80);
    assert_eq!(terminal_width(Some(0), &Some("90".to_string())), 90);
    assert_eq!(terminal_width(Some(0), &None), 80);
    assert_eq!(manual_inner_width(0), 40);
    assert_eq!(manual_inner_width(50), 42);
    assert_eq!(manual_inner_width(80), 72);
    assert_eq!(manual_inner_width(200), 96);
}

#[test]
fn ascii_frame_on_netbsd_consoles() {
    assert!(use_ascii_frame(TargetOs::NetBsd, &Some(b"/dev/ttyE0".to_vec())));
    assert!(use_ascii_frame(TargetOs::NetBsd, &Some(b"/dev/console".to_vec())));
    assert!(use_ascii_frame(TargetOs::NetBsd, &Some(b"/dev/constty".to_vec())));
    assert!(!use_ascii_frame(TargetOs::NetBsd, &Some(b"/dev/pts/1".to_vec())));
    assert!(!use_ascii_frame(TargetOs::NetBsd, &None));
    assert!(!use_ascii_frame(TargetOs::FreeBsd, &Some(b"/dev/console".to_vec())));
}

#[test]
fn render_document_of_a_small_document() {
    let c = ManualColors::new(false);
    let doc = vec![ManualBlock::Top, ManualBlock::Line("T", Role::Title), ManualBlock::OptionLine("-x", "does"), ManualBlock::Bottom];
    let lines = render_document(&doc, 40, &c, false);
    assert_eq!(lines.len(), 4);
    assert_eq!(lines[2], format!("\u{2502}    -x{}does{}\u{2502}", " ".repeat(26), " ".repeat(8)));
}

fn strip_escapes(line: &str) -> String {
    let mut out = String::new();
    let mut inside = false;
    for ch in line.chars() {
        if inside {
            inside = ch != 'm';
        } else if ch == '\x1b' {
            inside = true;
        } else {
            out.push(ch);
        }
    }
    out
}

#[test]
fn colours_change_no_visible_character() {
    for width in [40usize, 63, 96] {
        for ascii in [false, true] {
            let plain = print_help(false, width, ascii);
            let coloured: Vec<String> = print_help(true, width, ascii).iter().map(|l| strip_escapes(l)).collect();
            assert_eq!(coloured, plain);
            for os in [TargetOs::FreeBsd, TargetOs::NetBsd, TargetOs::Other] {
                let plain = print_manual(false, width, ascii, os);
                let coloured: Vec<String> =
                    print_manual(true, width, ascii, os).iter().map(|l| strip_escapes(l)).collect();
                assert_eq!(coloured, plain);
                let plain = print_classification_help(false, width, ascii, os);
                let coloured: Vec<String> =
                    print_classification_help(true, width, ascii, os).iter().map(|l| strip_escapes(l)).collect();
                assert_eq!(coloured, plain);
            }
        }
    }
}

#[test]
fn framed_lines_fit_the_frame_where_the_text_fits() {
    for ascii in [false, true] {
        for line in print_help(true, 96, ascii) {
            assert_eq!(strip_escapes(&line).chars().count(), 102, "{}", line);
        }
    }
    let narrow = print_help(false, 40, false);
    assert!(narrow.iter().any(|l| l.chars().count() > 46));
}

#[test]
fn shipped_documents_fit_from_89_columns() {
    for width in 89usize..=96 {
        for ascii in [false, true] {
            for line in print_help(true, width, ascii) {
                assert_eq!(strip_escapes(&line).chars().count(), width + 6);
            }
            for os in [TargetOs::FreeBsd, TargetOs::NetBsd, TargetOs::Other] {
                for line in print_manual(true, width, ascii, os) {
                    assert_eq!(strip_escapes(&line).chars().count(), width + 6);
                }
                for line in print_classification_help(false, width, ascii, os) {
                    assert_eq!(line.chars().count(), width + 6);
                }
            }
        }
    }
    assert!(print_help(false, 88, false).iter().any(|l| l.chars().count() > 94));
}

#[test]
fn manual_and_classification_fit_every_frame_width() {
    for width in 40usize..=96 {
        for ascii in [false, true] {
            for os in [TargetOs::FreeBsd, TargetOs::NetBsd, TargetOs::Other] {
                for line in print_manual(true, width, ascii, os) {
                    assert_eq!(strip_escapes(&line).chars().count(), width + 6);
                }
                for line in print_classification_help(true, width, ascii, os) {
                    assert_eq!(strip_escapes(&line).chars().count(), width + 6);
                }
            }
        }
    }
}
