//! The texts of the help, the manual and the classification help, as
//! framed documents: each is given as a value (the `*_blocks` functions)
//! and built by the function of the same document (`*_document`).
use vstd::prelude::*;
use crate::classify::TargetOs;
use crate::manual::{
    BlockView, ManualBlock, ManualColors, ManualPart, PartView, Role, blocks_view, description_fits, descriptions_fit,
    document_text, is_palette, parts_view, render_document,
};
use crate::report::texts;

verus! {

fn append_block(doc: &mut Vec<ManualBlock>, block: ManualBlock)
    requires
        descriptions_fit(blocks_view(old(doc)@)),
        description_fits(block@),
    ensures
        descriptions_fit(blocks_view(final(doc)@)),
        blocks_view(final(doc)@) == blocks_view(old(doc)@).push(block@),
{
    let ghost before = doc@;
    let ghost b = block@;
    doc.push(block);
    assert(blocks_view(doc@) =~= blocks_view(before).push(b));
    assert forall|i: int| 0 <= i < blocks_view(doc@).len() implies #[trigger] description_fits(blocks_view(doc@)[i]) by {
        if i < before.len() {
            assert(blocks_view(doc@)[i] == blocks_view(before)[i]);
        }
    }
}

/// Blocks 1 to 8 of the `--help` text.
pub open spec fn help_blocks_1() -> Seq<BlockView> {
    seq![
        BlockView::Top,
        BlockView::Line("nightkrawler - duplicate file finder and removal tool"@, Role::Title),
        BlockView::Separator,
        BlockView::Blank,
        BlockView::Line("Usage:"@, Role::Title),
        BlockView::Paragraph(seq![
            PartView { text: "nk"@, color: Role::Option },
            PartView { text: "PATH"@, color: Role::Emphasis },
            PartView { text: "--min-size"@, color: Role::Option },
            PartView { text: "SIZE"@, color: Role::Emphasis },
            PartView { text: "[options]"@, color: Role::Emphasis },
        ], 2),
        BlockView::Paragraph(seq![
            PartView { text: "nightkrawler"@, color: Role::Option },
            PartView { text: "PATH"@, color: Role::Emphasis },
            PartView { text: "--min-size"@, color: Role::Option },
            PartView { text: "SIZE"@, color: Role::Emphasis },
            PartView { text: "[options]"@, color: Role::Emphasis },
        ], 2),
        BlockView::Blank,
    ]
}

/// Blocks 9 to 16 of the `--help` text.
pub open spec fn help_blocks_2() -> Seq<BlockView> {
    seq![
        BlockView::Separator,
        BlockView::Blank,
        BlockView::Line("Meta:"@, Role::Title),
        BlockView::OptionLine("-h, --help"@, "Show this help text"@),
        BlockView::OptionLine("-v, --version"@, "Show version info"@),
        BlockView::OptionLine("--manual"@, "Show extensive manual"@),
        BlockView::OptionLine("--classification-help"@, "Show help on classification"@),
        BlockView::OptionLine("--no-colors"@, "Disable colored output"@),
    ]
}

/// Blocks 17 to 24 of the `--help` text.
pub open spec fn help_blocks_3() -> Seq<BlockView> {
    seq![
        BlockView::Blank,
        BlockView::Separator,
        BlockView::Blank,
        BlockView::Line("Options:"@, Role::Title),
        BlockView::OptionLine("--min-size SIZE"@, "Required. Ignore files smaller than SIZE: 100K, 10M, 1G"@),
        BlockView::OptionLine("--exclude, -E PATH"@, "Exclude one or more paths"@),
        BlockView::OptionLine("--protect, -P PATH"@, "Protect one or more paths from action modes"@),
        BlockView::OptionLine("--allow-protected"@, "Allow action modes on protected paths"@),
    ]
}

/// Blocks 25 to 32 of the `--help` text.
pub open spec fn help_blocks_4() -> Seq<BlockView> {
    seq![
        BlockView::OptionLine("--prefer PATH..."@, "Prefer keeping duplicate files under these paths"@),
        BlockView::OptionLine("--force-dotdirs"@, "Include dot-directories during recursive scans"@),
        BlockView::OptionLine("--keep-highest-version"@, "Prefer keeping files in highest version-like path"@),
        BlockView::OptionLine("--recursive, -R"@, "Scan recursively"@),
        BlockView::OptionLine("--quarantine, -q PATH"@, "Copy removable duplicate files into PATH"@),
        BlockView::OptionLine("--trash, -t"@, "Move removable duplicate files to system Trash"@),
        BlockView::OptionLine("--delete, -d"@, "Delete removable duplicate files"@),
        BlockView::OptionLine("--interactive, -i"@, "Ask before each destructive action"@),
    ]
}

/// Blocks 33 to 40 of the `--help` text.
pub open spec fn help_blocks_5() -> Seq<BlockView> {
    seq![
        BlockView::OptionLine("--restore, -u PATH"@, "Restore files in quarantine; PATH must point to quarantine"@),
        BlockView::OptionLine("--cleanup, -c"@, "Empty quarantine files and remove its directory"@),
        BlockView::OptionLine("--report, -r PATH"@, "Write report to PATH; directories use an automatic filename"@),
        BlockView::Blank,
        BlockView::Separator,
        BlockView::Blank,
        BlockView::Line("Safety:"@, Role::Title),
        BlockView::Paragraph(seq![
            PartView { text: "Without"@, color: Role::Text },
            PartView { text: "--quarantine, --trash, or --delete,"@, color: Role::Emphasis },
            PartView { text: "this version is report-only."@, color: Role::Text },
        ], 2),
    ]
}

/// Blocks 41 to 48 of the `--help` text.
pub open spec fn help_blocks_6() -> Seq<BlockView> {
    seq![
        BlockView::Paragraph(seq![
            PartView { text: "--quarantine"@, color: Role::Emphasis },
            PartView { text: "copies files instead of deleting them."@, color: Role::Text },
        ], 2),
        BlockView::Paragraph(seq![
            PartView { text: "--trash"@, color: Role::Emphasis },
            PartView { text: "moves files to Trash, if available, for manual recovery through your file manager."@, color: Role::Text },
        ], 2),
        BlockView::Paragraph(seq![
            PartView { text: "--delete"@, color: Role::Emphasis },
            PartView { text: "permanently removes files."@, color: Role::Text },
        ], 2),
        BlockView::Paragraph(seq![
            PartView { text: "--interactive"@, color: Role::Emphasis },
            PartView { text: "asks before each trash or delete action."@, color: Role::Text },
        ], 2),
        BlockView::Paragraph(seq![
            PartView { text: "--prefer"@, color: Role::Emphasis },
            PartView { text: "only changes which duplicate is kept."@, color: Role::Text },
        ], 2),
        BlockView::Blank,
        BlockView::Paragraph(seq![
            PartView { text: "If"@, color: Role::Text },
            PartView { text: "--quarantine"@, color: Role::Emphasis },
            PartView { text: "and"@, color: Role::Text },
            PartView { text: "--trash"@, color: Role::Emphasis },
            PartView { text: "are used together, files are copied first."@, color: Role::Text },
        ], 2),
        BlockView::Paragraph(seq![
            PartView { text: "If"@, color: Role::Text },
            PartView { text: "--quarantine"@, color: Role::Emphasis },
            PartView { text: "and"@, color: Role::Text },
            PartView { text: "--delete"@, color: Role::Emphasis },
            PartView { text: "are used together, files are copied first."@, color: Role::Text },
        ], 2),
    ]
}

/// Blocks 49 to 56 of the `--help` text.
pub open spec fn help_blocks_7() -> Seq<BlockView> {
    seq![
        BlockView::Paragraph(seq![
            PartView { text: "If quarantine copying fails or is skipped, trash or delete is refused."@, color: Role::Text },
        ], 2),
        BlockView::Paragraph(seq![
            PartView { text: "Nightkrawler checks free space before copying."@, color: Role::Text },
        ], 2),
        BlockView::Paragraph(seq![
            PartView { text: "It does not move files except when using"@, color: Role::Text },
            PartView { text: "--trash."@, color: Role::Emphasis },
        ], 2),
        BlockView::Paragraph(seq![
            PartView { text: "It does not follow symlinks."@, color: Role::Text },
        ], 2),
        BlockView::Paragraph(seq![
            PartView { text: "It skips dot-directories unless"@, color: Role::Text },
            PartView { text: "--force-dotdirs"@, color: Role::Emphasis },
            PartView { text: "is used."@, color: Role::Text },
        ], 2),
        BlockView::Paragraph(seq![
            PartView { text: "Protected high-level paths refuse action modes unless"@, color: Role::Text },
            PartView { text: "--allow-protected"@, color: Role::Emphasis },
            PartView { text: "is used."@, color: Role::Text },
        ], 2),
        BlockView::Blank,
        BlockView::Separator,
    ]
}

/// Blocks 57 to 64 of the `--help` text.
pub open spec fn help_blocks_8() -> Seq<BlockView> {
    seq![
        BlockView::Blank,
        BlockView::Line("Examples:"@, Role::Title),
        BlockView::Example(seq![
            PartView { text: "Scan"@, color: Role::Text },
            PartView { text: "~/Downloads"@, color: Role::Accent },
            PartView { text: "for files >=100MB. (Report only):"@, color: Role::Text },
        ], "nk ~/Downloads --min-size 100M"@),
        BlockView::Example(seq![
            PartView { text: "Scan"@, color: Role::Text },
            PartView { text: "~/Downloads"@, color: Role::Accent },
            PartView { text: "for files >=100MB recursively. (Report only):"@, color: Role::Text },
        ], "nk ~/Downloads --recursive --min-size 100M"@),
        BlockView::Example(seq![
            PartView { text: "Scan"@, color: Role::Text },
            PartView { text: "~"@, color: Role::Accent },
            PartView { text: "recursively for files >=100MB. Exclude"@, color: Role::Text },
            PartView { text: "~/bin, ~/PycharmProjects,"@, color: Role::Accent },
            PartView { text: "and"@, color: Role::Text },
            PartView { text: "~/snap."@, color: Role::Accent },
            PartView { text: "(Report only):"@, color: Role::Text },
        ], "nk ~ --recursive --min-size 100M --exclude ~/bin ~/PycharmProjects ~/snap"@),
        BlockView::Example(seq![
            PartView { text: "Scan"@, color: Role::Text },
            PartView { text: "~"@, color: Role::Accent },
            PartView { text: "recursively for files >=100MB and prefer keeping duplicates under"@, color: Role::Text },
            PartView { text: "~/DevX"@, color: Role::Accent },
            PartView { text: "then"@, color: Role::Text },
            PartView { text: "~/Documents."@, color: Role::Accent },
            PartView { text: "(Report only):"@, color: Role::Text },
        ], "nk ~ -R --min-size 100M --prefer ~/DevX ~/Documents"@),
        BlockView::Example(seq![
            PartView { text: "Scan"@, color: Role::Text },
            PartView { text: "~"@, color: Role::Accent },
            PartView { text: "recursively for files >=100MB, prefer keeping duplicates under"@, color: Role::Text },
            PartView { text: "~/DevX,"@, color: Role::Accent },
            PartView { text: "and copy removable duplicates to quarantine:"@, color: Role::Text },
        ], "nk ~ -R --min-size 100M --prefer ~/DevX --quarantine ~/nk-quarantine"@),
        BlockView::Example(seq![
            PartView { text: "Scan"@, color: Role::Text },
            PartView { text: "/"@, color: Role::Accent },
            PartView { text: "recursively for files 100MB or larger. (Report only):"@, color: Role::Text },
        ], "nk / -R --min-size 100M"@),
    ]
}

/// Blocks 65 to 72 of the `--help` text.
pub open spec fn help_blocks_9() -> Seq<BlockView> {
    seq![
        BlockView::Example(seq![
            PartView { text: "Scan"@, color: Role::Text },
            PartView { text: "/"@, color: Role::Accent },
            PartView { text: "recursively for files 100MB or larger, quarantine removable duplicates to"@, color: Role::Text },
            PartView { text: "/tmp/q,"@, color: Role::Accent },
            PartView { text: "and allow action on protected candidates:"@, color: Role::Text },
        ], "nk / -R --min-size 100M -q /tmp/q --allow-protected"@),
        BlockView::Example(seq![
            PartView { text: "Scan the directory recursively, quarantine removable duplicates, then offer each original duplicate for deletion, while protecting"@, color: Role::Text },
            PartView { text: "~/.sensitive."@, color: Role::Accent },
            PartView { text: "(Files may be deleted!):"@, color: Role::Text },
        ], "nk ~ --min-size 100M -q /tmp/q --protect ~/.sensitive -d --interactive"@),
        BlockView::Example(seq![
            PartView { text: "Scan"@, color: Role::Text },
            PartView { text: "~/Downloads"@, color: Role::Accent },
            PartView { text: "for files 100MB or larger, then move removable duplicates to Trash:"@, color: Role::Text },
        ], "nk ~/Downloads --recursive --min-size 100M --trash"@),
        BlockView::Example(seq![
            PartView { text: "Scan"@, color: Role::Text },
            PartView { text: "~/Downloads"@, color: Role::Accent },
            PartView { text: "recursively for files 100MB or larger and offer each removable duplicate for Trash interactively:"@, color: Role::Text },
        ], "nk ~/Downloads --recursive --min-size 100M -t -i"@),
        BlockView::Example(seq![
            PartView { text: "Scan the directory recursively, quarantine removable duplicates, then move the original removable duplicates to Trash:"@, color: Role::Text },
        ], "nk ~/Downloads --recursive --min-size 100M --quarantine ~/nk-quarantine -t"@),
        BlockView::Example(seq![
            PartView { text: "Scan the directory recursively and permanently delete removable duplicate files larger than 100MB:"@, color: Role::Text },
        ], "nk ~/Downloads --recursive --min-size 100M --delete"@),
        BlockView::Example(seq![
            PartView { text: "Scan the directory recursively and offer each removable duplicate for deletion interactively:"@, color: Role::Text },
        ], "nk ~/Downloads --recursive --min-size 100M -d -i"@),
        BlockView::Example(seq![
            PartView { text: "Scan the directory recursively, quarantine removable duplicates, then permanently delete the originals:"@, color: Role::Text },
        ], "nk ~/Downloads --recursive --min-size 100M -q ~/nk-quarantine -d"@),
    ]
}

/// Blocks 73 to 77 of the `--help` text.
pub open spec fn help_blocks_10() -> Seq<BlockView> {
    seq![
        BlockView::Example(seq![
            PartView { text: "Scan the directory recursively, quarantine removable duplicates, then offer each original removable duplicate for deletion:"@, color: Role::Text },
        ], "nk ~/Downloads --recursive --min-size 100M -q ~/nk-quarantine -d -i"@),
        BlockView::Line("Note:"@, Role::Title),
        BlockView::Paragraph(seq![
            PartView { text: "After the command has finished, Nightkrawler generates a report in the current directory or where specified by"@, color: Role::Text },
            PartView { text: "-r, --report"@, color: Role::Emphasis },
            PartView { text: "PATH."@, color: Role::Emphasis },
            PartView { text: "The report contains detailed information from the scan, quarantine, and Trash/delete process, as well as metadata about the scanned host."@, color: Role::Text },
        ], 2),
        BlockView::Blank,
        BlockView::Bottom,
    ]
}

/// The `--help` text, as blocks.
pub open spec fn help_blocks() -> Seq<BlockView> {
    help_blocks_1() + help_blocks_2() + help_blocks_3() + help_blocks_4() + help_blocks_5() + help_blocks_6() + help_blocks_7() + help_blocks_8() + help_blocks_9() + help_blocks_10()
}

#[verifier::spinoff_prover]
fn help_document_part_1(doc: &mut Vec<ManualBlock>)
    requires
        descriptions_fit(blocks_view(old(doc)@)),
    ensures
        descriptions_fit(blocks_view(final(doc)@)),
        blocks_view(final(doc)@) == blocks_view(old(doc)@) + help_blocks_1(),
{
    let ghost start = blocks_view(doc@);
    append_block(doc, ManualBlock::Top);
    append_block(doc, ManualBlock::Line("nightkrawler - duplicate file finder and removal tool", Role::Title));
    append_block(doc, ManualBlock::Separator);
    append_block(doc, ManualBlock::Blank);
    append_block(doc, ManualBlock::Line("Usage:", Role::Title));
    let parts = vec![
        ManualPart { text: "nk", color: Role::Option },
        ManualPart { text: "PATH", color: Role::Emphasis },
        ManualPart { text: "--min-size", color: Role::Option },
        ManualPart { text: "SIZE", color: Role::Emphasis },
        ManualPart { text: "[options]", color: Role::Emphasis },
    ];
    assert(parts_view(parts@) =~= seq![
        PartView { text: "nk"@, color: Role::Option },
        PartView { text: "PATH"@, color: Role::Emphasis },
        PartView { text: "--min-size"@, color: Role::Option },
        PartView { text: "SIZE"@, color: Role::Emphasis },
        PartView { text: "[options]"@, color: Role::Emphasis },
    ]);
    append_block(doc, ManualBlock::Paragraph(parts, 2));
    let parts = vec![
        ManualPart { text: "nightkrawler", color: Role::Option },
        ManualPart { text: "PATH", color: Role::Emphasis },
        ManualPart { text: "--min-size", color: Role::Option },
        ManualPart { text: "SIZE", color: Role::Emphasis },
        ManualPart { text: "[options]", color: Role::Emphasis },
    ];
    assert(parts_view(parts@) =~= seq![
        PartView { text: "nightkrawler"@, color: Role::Option },
        PartView { text: "PATH"@, color: Role::Emphasis },
        PartView { text: "--min-size"@, color: Role::Option },
        PartView { text: "SIZE"@, color: Role::Emphasis },
        PartView { text: "[options]"@, color: Role::Emphasis },
    ]);
    append_block(doc, ManualBlock::Paragraph(parts, 2));
    append_block(doc, ManualBlock::Blank);
    assert(blocks_view(doc@) =~= start + help_blocks_1());
}

#[verifier::spinoff_prover]
fn help_document_part_2(doc: &mut Vec<ManualBlock>)
    requires
        descriptions_fit(blocks_view(old(doc)@)),
    ensures
        descriptions_fit(blocks_view(final(doc)@)),
        blocks_view(final(doc)@) == blocks_view(old(doc)@) + help_blocks_2(),
{
    let ghost start = blocks_view(doc@);
    append_block(doc, ManualBlock::Separator);
    append_block(doc, ManualBlock::Blank);
    append_block(doc, ManualBlock::Line("Meta:", Role::Title));
    proof {
        reveal_strlit("Show this help text");
    }
    append_block(doc, ManualBlock::OptionLine("-h, --help", "Show this help text"));
    proof {
        reveal_strlit("Show version info");
    }
    append_block(doc, ManualBlock::OptionLine("-v, --version", "Show version info"));
    proof {
        reveal_strlit("Show extensive manual");
    }
    append_block(doc, ManualBlock::OptionLine("--manual", "Show extensive manual"));
    proof {
        reveal_strlit("Show help on classification");
    }
    append_block(doc, ManualBlock::OptionLine("--classification-help", "Show help on classification"));
    proof {
        reveal_strlit("Disable colored output");
    }
    append_block(doc, ManualBlock::OptionLine("--no-colors", "Disable colored output"));
    assert(blocks_view(doc@) =~= start + help_blocks_2());
}

#[verifier::spinoff_prover]
fn help_document_part_3(doc: &mut Vec<ManualBlock>)
    requires
        descriptions_fit(blocks_view(old(doc)@)),
    ensures
        descriptions_fit(blocks_view(final(doc)@)),
        blocks_view(final(doc)@) == blocks_view(old(doc)@) + help_blocks_3(),
{
    let ghost start = blocks_view(doc@);
    append_block(doc, ManualBlock::Blank);
    append_block(doc, ManualBlock::Separator);
    append_block(doc, ManualBlock::Blank);
    append_block(doc, ManualBlock::Line("Options:", Role::Title));
    proof {
        reveal_strlit("Required. Ignore files smaller than SIZE: 100K, 10M, 1G");
    }
    append_block(doc, ManualBlock::OptionLine("--min-size SIZE", "Required. Ignore files smaller than SIZE: 100K, 10M, 1G"));
    proof {
        reveal_strlit("Exclude one or more paths");
    }
    append_block(doc, ManualBlock::OptionLine("--exclude, -E PATH", "Exclude one or more paths"));
    proof {
        reveal_strlit("Protect one or more paths from action modes");
    }
    append_block(doc, ManualBlock::OptionLine("--protect, -P PATH", "Protect one or more paths from action modes"));
    proof {
        reveal_strlit("Allow action modes on protected paths");
    }
    append_block(doc, ManualBlock::OptionLine("--allow-protected", "Allow action modes on protected paths"));
    assert(blocks_view(doc@) =~= start + help_blocks_3());
}

#[verifier::spinoff_prover]
fn help_document_part_4(doc: &mut Vec<ManualBlock>)
    requires
        descriptions_fit(blocks_view(old(doc)@)),
    ensures
        descriptions_fit(blocks_view(final(doc)@)),
        blocks_view(final(doc)@) == blocks_view(old(doc)@) + help_blocks_4(),
{
    let ghost start = blocks_view(doc@);
    proof {
        reveal_strlit("Prefer keeping duplicate files under these paths");
    }
    append_block(doc, ManualBlock::OptionLine("--prefer PATH...", "Prefer keeping duplicate files under these paths"));
    proof {
        reveal_strlit("Include dot-directories during recursive scans");
    }
    append_block(doc, ManualBlock::OptionLine("--force-dotdirs", "Include dot-directories during recursive scans"));
    proof {
        reveal_strlit("Prefer keeping files in highest version-like path");
    }
    append_block(doc, ManualBlock::OptionLine("--keep-highest-version", "Prefer keeping files in highest version-like path"));
    proof {
        reveal_strlit("Scan recursively");
    }
    append_block(doc, ManualBlock::OptionLine("--recursive, -R", "Scan recursively"));
    proof {
        reveal_strlit("Copy removable duplicate files into PATH");
    }
    append_block(doc, ManualBlock::OptionLine("--quarantine, -q PATH", "Copy removable duplicate files into PATH"));
    proof {
        reveal_strlit("Move removable duplicate files to system Trash");
    }
    append_block(doc, ManualBlock::OptionLine("--trash, -t", "Move removable duplicate files to system Trash"));
    proof {
        reveal_strlit("Delete removable duplicate files");
    }
    append_block(doc, ManualBlock::OptionLine("--delete, -d", "Delete removable duplicate files"));
    proof {
        reveal_strlit("Ask before each destructive action");
    }
    append_block(doc, ManualBlock::OptionLine("--interactive, -i", "Ask before each destructive action"));
    assert(blocks_view(doc@) =~= start + help_blocks_4());
}

#[verifier::spinoff_prover]
fn help_document_part_5(doc: &mut Vec<ManualBlock>)
    requires
        descriptions_fit(blocks_view(old(doc)@)),
    ensures
        descriptions_fit(blocks_view(final(doc)@)),
        blocks_view(final(doc)@) == blocks_view(old(doc)@) + help_blocks_5(),
{
    let ghost start = blocks_view(doc@);
    proof {
        reveal_strlit("Restore files in quarantine; PATH must point to quarantine");
    }
    append_block(doc, ManualBlock::OptionLine("--restore, -u PATH", "Restore files in quarantine; PATH must point to quarantine"));
    proof {
        reveal_strlit("Empty quarantine files and remove its directory");
    }
    append_block(doc, ManualBlock::OptionLine("--cleanup, -c", "Empty quarantine files and remove its directory"));
    proof {
        reveal_strlit("Write report to PATH; directories use an automatic filename");
    }
    append_block(doc, ManualBlock::OptionLine("--report, -r PATH", "Write report to PATH; directories use an automatic filename"));
    append_block(doc, ManualBlock::Blank);
    append_block(doc, ManualBlock::Separator);
    append_block(doc, ManualBlock::Blank);
    append_block(doc, ManualBlock::Line("Safety:", Role::Title));
    let parts = vec![
        ManualPart { text: "Without", color: Role::Text },
        ManualPart { text: "--quarantine, --trash, or --delete,", color: Role::Emphasis },
        ManualPart { text: "this version is report-only.", color: Role::Text },
    ];
    assert(parts_view(parts@) =~= seq![
        PartView { text: "Without"@, color: Role::Text },
        PartView { text: "--quarantine, --trash, or --delete,"@, color: Role::Emphasis },
        PartView { text: "this version is report-only."@, color: Role::Text },
    ]);
    append_block(doc, ManualBlock::Paragraph(parts, 2));
    assert(blocks_view(doc@) =~= start + help_blocks_5());
}

#[verifier::spinoff_prover]
fn help_document_part_6(doc: &mut Vec<ManualBlock>)
    requires
        descriptions_fit(blocks_view(old(doc)@)),
    ensures
        descriptions_fit(blocks_view(final(doc)@)),
        blocks_view(final(doc)@) == blocks_view(old(doc)@) + help_blocks_6(),
{
    let ghost start = blocks_view(doc@);
    let parts = vec![
        ManualPart { text: "--quarantine", color: Role::Emphasis },
        ManualPart { text: "copies files instead of deleting them.", color: Role::Text },
    ];
    assert(parts_view(parts@) =~= seq![
        PartView { text: "--quarantine"@, color: Role::Emphasis },
        PartView { text: "copies files instead of deleting them."@, color: Role::Text },
    ]);
    append_block(doc, ManualBlock::Paragraph(parts, 2));
    let parts = vec![
        ManualPart { text: "--trash", color: Role::Emphasis },
        ManualPart { text: "moves files to Trash, if available, for manual recovery through your file manager.", color: Role::Text },
    ];
    assert(parts_view(parts@) =~= seq![
        PartView { text: "--trash"@, color: Role::Emphasis },
        PartView { text: "moves files to Trash, if available, for manual recovery through your file manager."@, color: Role::Text },
    ]);
    append_block(doc, ManualBlock::Paragraph(parts, 2));
    let parts = vec![
        ManualPart { text: "--delete", color: Role::Emphasis },
        ManualPart { text: "permanently removes files.", color: Role::Text },
    ];
    assert(parts_view(parts@) =~= seq![
        PartView { text: "--delete"@, color: Role::Emphasis },
        PartView { text: "permanently removes files."@, color: Role::Text },
    ]);
    append_block(doc, ManualBlock::Paragraph(parts, 2));
    let parts = vec![
        ManualPart { text: "--interactive", color: Role::Emphasis },
        ManualPart { text: "asks before each trash or delete action.", color: Role::Text },
    ];
    assert(parts_view(parts@) =~= seq![
        PartView { text: "--interactive"@, color: Role::Emphasis },
        PartView { text: "asks before each trash or delete action."@, color: Role::Text },
    ]);
    append_block(doc, ManualBlock::Paragraph(parts, 2));
    let parts = vec![
        ManualPart { text: "--prefer", color: Role::Emphasis },
        ManualPart { text: "only changes which duplicate is kept.", color: Role::Text },
    ];
    assert(parts_view(parts@) =~= seq![
        PartView { text: "--prefer"@, color: Role::Emphasis },
        PartView { text: "only changes which duplicate is kept."@, color: Role::Text },
    ]);
    append_block(doc, ManualBlock::Paragraph(parts, 2));
    append_block(doc, ManualBlock::Blank);
    let parts = vec![
        ManualPart { text: "If", color: Role::Text },
        ManualPart { text: "--quarantine", color: Role::Emphasis },
        ManualPart { text: "and", color: Role::Text },
        ManualPart { text: "--trash", color: Role::Emphasis },
        ManualPart { text: "are used together, files are copied first.", color: Role::Text },
    ];
    assert(parts_view(parts@) =~= seq![
        PartView { text: "If"@, color: Role::Text },
        PartView { text: "--quarantine"@, color: Role::Emphasis },
        PartView { text: "and"@, color: Role::Text },
        PartView { text: "--trash"@, color: Role::Emphasis },
        PartView { text: "are used together, files are copied first."@, color: Role::Text },
    ]);
    append_block(doc, ManualBlock::Paragraph(parts, 2));
    let parts = vec![
        ManualPart { text: "If", color: Role::Text },
        ManualPart { text: "--quarantine", color: Role::Emphasis },
        ManualPart { text: "and", color: Role::Text },
        ManualPart { text: "--delete", color: Role::Emphasis },
        ManualPart { text: "are used together, files are copied first.", color: Role::Text },
    ];
    assert(parts_view(parts@) =~= seq![
        PartView { text: "If"@, color: Role::Text },
        PartView { text: "--quarantine"@, color: Role::Emphasis },
        PartView { text: "and"@, color: Role::Text },
        PartView { text: "--delete"@, color: Role::Emphasis },
        PartView { text: "are used together, files are copied first."@, color: Role::Text },
    ]);
    append_block(doc, ManualBlock::Paragraph(parts, 2));
    assert(blocks_view(doc@) =~= start + help_blocks_6());
}

#[verifier::spinoff_prover]
fn help_document_part_7(doc: &mut Vec<ManualBlock>)
    requires
        descriptions_fit(blocks_view(old(doc)@)),
    ensures
        descriptions_fit(blocks_view(final(doc)@)),
        blocks_view(final(doc)@) == blocks_view(old(doc)@) + help_blocks_7(),
{
    let ghost start = blocks_view(doc@);
    let parts = vec![
        ManualPart { text: "If quarantine copying fails or is skipped, trash or delete is refused.", color: Role::Text },
    ];
    assert(parts_view(parts@) =~= seq![
        PartView { text: "If quarantine copying fails or is skipped, trash or delete is refused."@, color: Role::Text },
    ]);
    append_block(doc, ManualBlock::Paragraph(parts, 2));
    let parts = vec![
        ManualPart { text: "Nightkrawler checks free space before copying.", color: Role::Text },
    ];
    assert(parts_view(parts@) =~= seq![
        PartView { text: "Nightkrawler checks free space before copying."@, color: Role::Text },
    ]);
    append_block(doc, ManualBlock::Paragraph(parts, 2));
    let parts = vec![
        ManualPart { text: "It does not move files except when using", color: Role::Text },
        ManualPart { text: "--trash.", color: Role::Emphasis },
    ];
    assert(parts_view(parts@) =~= seq![
        PartView { text: "It does not move files except when using"@, color: Role::Text },
        PartView { text: "--trash."@, color: Role::Emphasis },
    ]);
    append_block(doc, ManualBlock::Paragraph(parts, 2));
    let parts = vec![
        ManualPart { text: "It does not follow symlinks.", color: Role::Text },
    ];
    assert(parts_view(parts@) =~= seq![
        PartView { text: "It does not follow symlinks."@, color: Role::Text },
    ]);
    append_block(doc, ManualBlock::Paragraph(parts, 2));
    let parts = vec![
        ManualPart { text: "It skips dot-directories unless", color: Role::Text },
        ManualPart { text: "--force-dotdirs", color: Role::Emphasis },
        ManualPart { text: "is used.", color: Role::Text },
    ];
    assert(parts_view(parts@) =~= seq![
        PartView { text: "It skips dot-directories unless"@, color: Role::Text },
        PartView { text: "--force-dotdirs"@, color: Role::Emphasis },
        PartView { text: "is used."@, color: Role::Text },
    ]);
    append_block(doc, ManualBlock::Paragraph(parts, 2));
    let parts = vec![
        ManualPart { text: "Protected high-level paths refuse action modes unless", color: Role::Text },
        ManualPart { text: "--allow-protected", color: Role::Emphasis },
        ManualPart { text: "is used.", color: Role::Text },
    ];
    assert(parts_view(parts@) =~= seq![
        PartView { text: "Protected high-level paths refuse action modes unless"@, color: Role::Text },
        PartView { text: "--allow-protected"@, color: Role::Emphasis },
        PartView { text: "is used."@, color: Role::Text },
    ]);
    append_block(doc, ManualBlock::Paragraph(parts, 2));
    append_block(doc, ManualBlock::Blank);
    append_block(doc, ManualBlock::Separator);
    assert(blocks_view(doc@) =~= start + help_blocks_7());
}

#[verifier::spinoff_prover]
fn help_document_part_8(doc: &mut Vec<ManualBlock>)
    requires
        descriptions_fit(blocks_view(old(doc)@)),
    ensures
        descriptions_fit(blocks_view(final(doc)@)),
        blocks_view(final(doc)@) == blocks_view(old(doc)@) + help_blocks_8(),
{
    let ghost start = blocks_view(doc@);
    append_block(doc, ManualBlock::Blank);
    append_block(doc, ManualBlock::Line("Examples:", Role::Title));
    let parts = vec![
        ManualPart { text: "Scan", color: Role::Text },
        ManualPart { text: "~/Downloads", color: Role::Accent },
        ManualPart { text: "for files >=100MB. (Report only):", color: Role::Text },
    ];
    assert(parts_view(parts@) =~= seq![
        PartView { text: "Scan"@, color: Role::Text },
        PartView { text: "~/Downloads"@, color: Role::Accent },
        PartView { text: "for files >=100MB. (Report only):"@, color: Role::Text },
    ]);
    append_block(doc, ManualBlock::Example(parts, "nk ~/Downloads --min-size 100M"));
    let parts = vec![
        ManualPart { text: "Scan", color: Role::Text },
        ManualPart { text: "~/Downloads", color: Role::Accent },
        ManualPart { text: "for files >=100MB recursively. (Report only):", color: Role::Text },
    ];
    assert(parts_view(parts@) =~= seq![
        PartView { text: "Scan"@, color: Role::Text },
        PartView { text: "~/Downloads"@, color: Role::Accent },
        PartView { text: "for files >=100MB recursively. (Report only):"@, color: Role::Text },
    ]);
    append_block(doc, ManualBlock::Example(parts, "nk ~/Downloads --recursive --min-size 100M"));
    let parts = vec![
        ManualPart { text: "Scan", color: Role::Text },
        ManualPart { text: "~", color: Role::Accent },
        ManualPart { text: "recursively for files >=100MB. Exclude", color: Role::Text },
        ManualPart { text: "~/bin, ~/PycharmProjects,", color: Role::Accent },
        ManualPart { text: "and", color: Role::Text },
        ManualPart { text: "~/snap.", color: Role::Accent },
        ManualPart { text: "(Report only):", color: Role::Text },
    ];
    assert(parts_view(parts@) =~= seq![
        PartView { text: "Scan"@, color: Role::Text },
        PartView { text: "~"@, color: Role::Accent },
        PartView { text: "recursively for files >=100MB. Exclude"@, color: Role::Text },
        PartView { text: "~/bin, ~/PycharmProjects,"@, color: Role::Accent },
        PartView { text: "and"@, color: Role::Text },
        PartView { text: "~/snap."@, color: Role::Accent },
        PartView { text: "(Report only):"@, color: Role::Text },
    ]);
    append_block(doc, ManualBlock::Example(parts, "nk ~ --recursive --min-size 100M --exclude ~/bin ~/PycharmProjects ~/snap"));
    let parts = vec![
        ManualPart { text: "Scan", color: Role::Text },
        ManualPart { text: "~", color: Role::Accent },
        ManualPart { text: "recursively for files >=100MB and prefer keeping duplicates under", color: Role::Text },
        ManualPart { text: "~/DevX", color: Role::Accent },
        ManualPart { text: "then", color: Role::Text },
        ManualPart { text: "~/Documents.", color: Role::Accent },
        ManualPart { text: "(Report only):", color: Role::Text },
    ];
    assert(parts_view(parts@) =~= seq![
        PartView { text: "Scan"@, color: Role::Text },
        PartView { text: "~"@, color: Role::Accent },
        PartView { text: "recursively for files >=100MB and prefer keeping duplicates under"@, color: Role::Text },
        PartView { text: "~/DevX"@, color: Role::Accent },
        PartView { text: "then"@, color: Role::Text },
        PartView { text: "~/Documents."@, color: Role::Accent },
        PartView { text: "(Report only):"@, color: Role::Text },
    ]);
    append_block(doc, ManualBlock::Example(parts, "nk ~ -R --min-size 100M --prefer ~/DevX ~/Documents"));
    let parts = vec![
        ManualPart { text: "Scan", color: Role::Text },
        ManualPart { text: "~", color: Role::Accent },
        ManualPart { text: "recursively for files >=100MB, prefer keeping duplicates under", color: Role::Text },
        ManualPart { text: "~/DevX,", color: Role::Accent },
        ManualPart { text: "and copy removable duplicates to quarantine:", color: Role::Text },
    ];
    assert(parts_view(parts@) =~= seq![
        PartView { text: "Scan"@, color: Role::Text },
        PartView { text: "~"@, color: Role::Accent },
        PartView { text: "recursively for files >=100MB, prefer keeping duplicates under"@, color: Role::Text },
        PartView { text: "~/DevX,"@, color: Role::Accent },
        PartView { text: "and copy removable duplicates to quarantine:"@, color: Role::Text },
    ]);
    append_block(doc, ManualBlock::Example(parts, "nk ~ -R --min-size 100M --prefer ~/DevX --quarantine ~/nk-quarantine"));
    let parts = vec![
        ManualPart { text: "Scan", color: Role::Text },
        ManualPart { text: "/", color: Role::Accent },
        ManualPart { text: "recursively for files 100MB or larger. (Report only):", color: Role::Text },
    ];
    assert(parts_view(parts@) =~= seq![
        PartView { text: "Scan"@, color: Role::Text },
        PartView { text: "/"@, color: Role::Accent },
        PartView { text: "recursively for files 100MB or larger. (Report only):"@, color: Role::Text },
    ]);
    append_block(doc, ManualBlock::Example(parts, "nk / -R --min-size 100M"));
    assert(blocks_view(doc@) =~= start + help_blocks_8());
}

#[verifier::spinoff_prover]
fn help_document_part_9(doc: &mut Vec<ManualBlock>)
    requires
        descriptions_fit(blocks_view(old(doc)@)),
    ensures
        descriptions_fit(blocks_view(final(doc)@)),
        blocks_view(final(doc)@) == blocks_view(old(doc)@) + help_blocks_9(),
{
    let ghost start = blocks_view(doc@);
    let parts = vec![
        ManualPart { text: "Scan", color: Role::Text },
        ManualPart { text: "/", color: Role::Accent },
        ManualPart { text: "recursively for files 100MB or larger, quarantine removable duplicates to", color: Role::Text },
        ManualPart { text: "/tmp/q,", color: Role::Accent },
        ManualPart { text: "and allow action on protected candidates:", color: Role::Text },
    ];
    assert(parts_view(parts@) =~= seq![
        PartView { text: "Scan"@, color: Role::Text },
        PartView { text: "/"@, color: Role::Accent },
        PartView { text: "recursively for files 100MB or larger, quarantine removable duplicates to"@, color: Role::Text },
        PartView { text: "/tmp/q,"@, color: Role::Accent },
        PartView { text: "and allow action on protected candidates:"@, color: Role::Text },
    ]);
    append_block(doc, ManualBlock::Example(parts, "nk / -R --min-size 100M -q /tmp/q --allow-protected"));
    let parts = vec![
        ManualPart { text: "Scan the directory recursively, quarantine removable duplicates, then offer each original duplicate for deletion, while protecting", color: Role::Text },
        ManualPart { text: "~/.sensitive.", color: Role::Accent },
        ManualPart { text: "(Files may be deleted!):", color: Role::Text },
    ];
    assert(parts_view(parts@) =~= seq![
        PartView { text: "Scan the directory recursively, quarantine removable duplicates, then offer each original duplicate for deletion, while protecting"@, color: Role::Text },
        PartView { text: "~/.sensitive."@, color: Role::Accent },
        PartView { text: "(Files may be deleted!):"@, color: Role::Text },
    ]);
    append_block(doc, ManualBlock::Example(parts, "nk ~ --min-size 100M -q /tmp/q --protect ~/.sensitive -d --interactive"));
    let parts = vec![
        ManualPart { text: "Scan", color: Role::Text },
        ManualPart { text: "~/Downloads", color: Role::Accent },
        ManualPart { text: "for files 100MB or larger, then move removable duplicates to Trash:", color: Role::Text },
    ];
    assert(parts_view(parts@) =~= seq![
        PartView { text: "Scan"@, color: Role::Text },
        PartView { text: "~/Downloads"@, color: Role::Accent },
        PartView { text: "for files 100MB or larger, then move removable duplicates to Trash:"@, color: Role::Text },
    ]);
    append_block(doc, ManualBlock::Example(parts, "nk ~/Downloads --recursive --min-size 100M --trash"));
    let parts = vec![
        ManualPart { text: "Scan", color: Role::Text },
        ManualPart { text: "~/Downloads", color: Role::Accent },
        ManualPart { text: "recursively for files 100MB or larger and offer each removable duplicate for Trash interactively:", color: Role::Text },
    ];
    assert(parts_view(parts@) =~= seq![
        PartView { text: "Scan"@, color: Role::Text },
        PartView { text: "~/Downloads"@, color: Role::Accent },
        PartView { text: "recursively for files 100MB or larger and offer each removable duplicate for Trash interactively:"@, color: Role::Text },
    ]);
    append_block(doc, ManualBlock::Example(parts, "nk ~/Downloads --recursive --min-size 100M -t -i"));
    let parts = vec![
        ManualPart { text: "Scan the directory recursively, quarantine removable duplicates, then move the original removable duplicates to Trash:", color: Role::Text },
    ];
    assert(parts_view(parts@) =~= seq![
        PartView { text: "Scan the directory recursively, quarantine removable duplicates, then move the original removable duplicates to Trash:"@, color: Role::Text },
    ]);
    append_block(doc, ManualBlock::Example(parts, "nk ~/Downloads --recursive --min-size 100M --quarantine ~/nk-quarantine -t"));
    let parts = vec![
        ManualPart { text: "Scan the directory recursively and permanently delete removable duplicate files larger than 100MB:", color: Role::Text },
    ];
    assert(parts_view(parts@) =~= seq![
        PartView { text: "Scan the directory recursively and permanently delete removable duplicate files larger than 100MB:"@, color: Role::Text },
    ]);
    append_block(doc, ManualBlock::Example(parts, "nk ~/Downloads --recursive --min-size 100M --delete"));
    let parts = vec![
        ManualPart { text: "Scan the directory recursively and offer each removable duplicate for deletion interactively:", color: Role::Text },
    ];
    assert(parts_view(parts@) =~= seq![
        PartView { text: "Scan the directory recursively and offer each removable duplicate for deletion interactively:"@, color: Role::Text },
    ]);
    append_block(doc, ManualBlock::Example(parts, "nk ~/Downloads --recursive --min-size 100M -d -i"));
    let parts = vec![
        ManualPart { text: "Scan the directory recursively, quarantine removable duplicates, then permanently delete the originals:", color: Role::Text },
    ];
    assert(parts_view(parts@) =~= seq![
        PartView { text: "Scan the directory recursively, quarantine removable duplicates, then permanently delete the originals:"@, color: Role::Text },
    ]);
    append_block(doc, ManualBlock::Example(parts, "nk ~/Downloads --recursive --min-size 100M -q ~/nk-quarantine -d"));
    assert(blocks_view(doc@) =~= start + help_blocks_9());
}

#[verifier::spinoff_prover]
fn help_document_part_10(doc: &mut Vec<ManualBlock>)
    requires
        descriptions_fit(blocks_view(old(doc)@)),
    ensures
        descriptions_fit(blocks_view(final(doc)@)),
        blocks_view(final(doc)@) == blocks_view(old(doc)@) + help_blocks_10(),
{
    let ghost start = blocks_view(doc@);
    let parts = vec![
        ManualPart { text: "Scan the directory recursively, quarantine removable duplicates, then offer each original removable duplicate for deletion:", color: Role::Text },
    ];
    assert(parts_view(parts@) =~= seq![
        PartView { text: "Scan the directory recursively, quarantine removable duplicates, then offer each original removable duplicate for deletion:"@, color: Role::Text },
    ]);
    append_block(doc, ManualBlock::Example(parts, "nk ~/Downloads --recursive --min-size 100M -q ~/nk-quarantine -d -i"));
    append_block(doc, ManualBlock::Line("Note:", Role::Title));
    let parts = vec![
        ManualPart { text: "After the command has finished, Nightkrawler generates a report in the current directory or where specified by", color: Role::Text },
        ManualPart { text: "-r, --report", color: Role::Emphasis },
        ManualPart { text: "PATH.", color: Role::Emphasis },
        ManualPart { text: "The report contains detailed information from the scan, quarantine, and Trash/delete process, as well as metadata about the scanned host.", color: Role::Text },
    ];
    assert(parts_view(parts@) =~= seq![
        PartView { text: "After the command has finished, Nightkrawler generates a report in the current directory or where specified by"@, color: Role::Text },
        PartView { text: "-r, --report"@, color: Role::Emphasis },
        PartView { text: "PATH."@, color: Role::Emphasis },
        PartView { text: "The report contains detailed information from the scan, quarantine, and Trash/delete process, as well as metadata about the scanned host."@, color: Role::Text },
    ]);
    append_block(doc, ManualBlock::Paragraph(parts, 2));
    append_block(doc, ManualBlock::Blank);
    append_block(doc, ManualBlock::Bottom);
    assert(blocks_view(doc@) =~= start + help_blocks_10());
}

/// The blocks of the `--help` text.
pub fn help_document() -> (doc: Vec<ManualBlock>)
    ensures
        blocks_view(doc@) == help_blocks(),
        descriptions_fit(blocks_view(doc@)),
{
    let mut doc: Vec<ManualBlock> = Vec::new();
    assert(blocks_view(doc@) =~= Seq::<BlockView>::empty());
    help_document_part_1(&mut doc);
    help_document_part_2(&mut doc);
    help_document_part_3(&mut doc);
    help_document_part_4(&mut doc);
    help_document_part_5(&mut doc);
    help_document_part_6(&mut doc);
    help_document_part_7(&mut doc);
    help_document_part_8(&mut doc);
    help_document_part_9(&mut doc);
    help_document_part_10(&mut doc);
    assert(blocks_view(doc@) =~= help_blocks_1() + help_blocks_2() + help_blocks_3() + help_blocks_4() + help_blocks_5() + help_blocks_6() + help_blocks_7() + help_blocks_8() + help_blocks_9() + help_blocks_10());
    doc
}

/// Blocks 1 to 8 of the manual on the system `os`.
pub open spec fn manual_blocks_1(os: TargetOs) -> Seq<BlockView> {
    seq![
        BlockView::Top,
        BlockView::Line("Nightkrawler Manual"@, Role::Title),
        BlockView::Separator,
        BlockView::Blank,
        BlockView::ManualParagraph(seq![
            PartView { text: "Nightkrawler is a duplicate file finder and removal tool designed around cautious inspection, explicit action modes, and recoverable workflows."@, color: Role::Text },
        ]),
        BlockView::Section("Overview"@),
        BlockView::ManualParagraph(seq![
            PartView { text: "Nightkrawler scans regular files, groups files with identical content, chooses one file from each duplicate group to keep, and identifies the remaining copies as removable duplicates."@, color: Role::Text },
        ]),
        BlockView::ManualParagraph(seq![
            PartView { text: "Without"@, color: Role::Text },
            PartView { text: "--quarantine, --trash,"@, color: Role::Emphasis },
            PartView { text: "or"@, color: Role::Text },
            PartView { text: "--delete,"@, color: Role::Emphasis },
            PartView { text: "Nightkrawler operates in report-only mode. It scans and reports duplicate groups without changing the original files."@, color: Role::Text },
        ]),
    ]
}

/// Blocks 9 to 16 of the manual on the system `os`.
pub open spec fn manual_blocks_2(os: TargetOs) -> Seq<BlockView> {
    seq![
        BlockView::ManualParagraph(seq![
            PartView { text: "A duplicate group always keeps one matching file. Action modes operate only on the removable members of the group."@, color: Role::Text },
        ]),
        BlockView::ManualParagraph(seq![
            PartView { text: "Nightkrawler compares file contents rather than filenames. Files may have completely different names and still belong to the same duplicate group when their contents are identical."@, color: Role::Text },
        ]),
        BlockView::ManualParagraph(seq![
            PartView { text: "Zero-byte files follow the same duplicate rule as every other regular file. If several zero-byte files form a duplicate group, one is kept and the others are treated as removable duplicates."@, color: Role::Text },
        ]),
        BlockView::Blank,
        BlockView::Section("Usage"@),
        BlockView::Paragraph(seq![
            PartView { text: "nk"@, color: Role::Option },
            PartView { text: "PATH"@, color: Role::Emphasis },
            PartView { text: "--min-size"@, color: Role::Option },
            PartView { text: "SIZE"@, color: Role::Emphasis },
            PartView { text: "[options]"@, color: Role::Emphasis },
        ], 4),
        BlockView::Paragraph(seq![
            PartView { text: "nightkrawler"@, color: Role::Option },
            PartView { text: "PATH"@, color: Role::Emphasis },
            PartView { text: "--min-size"@, color: Role::Option },
            PartView { text: "SIZE"@, color: Role::Emphasis },
            PartView { text: "[options]"@, color: Role::Emphasis },
        ], 4),
        BlockView::Blank,
    ]
}

/// Blocks 17 to 24 of the manual on the system `os`.
pub open spec fn manual_blocks_3(os: TargetOs) -> Seq<BlockView> {
    seq![
        BlockView::ManualParagraph(seq![
            PartView { text: "PATH"@, color: Role::Emphasis },
            PartView { text: "is the directory or file tree Nightkrawler will inspect. Only one scan path may be supplied."@, color: Role::Text },
        ]),
        BlockView::ManualParagraph(seq![
            PartView { text: "--min-size"@, color: Role::Emphasis },
            PartView { text: "is required for scan commands. Files smaller than the selected threshold are ignored before duplicate comparison begins."@, color: Role::Text },
        ]),
        BlockView::ManualParagraph(seq![
            PartView { text: "SIZE"@, color: Role::Emphasis },
            PartView { text: "accepts byte values or binary-style suffixes such as"@, color: Role::Text },
            PartView { text: "100K, 10M, 1G,"@, color: Role::Accent },
            PartView { text: "and"@, color: Role::Text },
            PartView { text: "1T."@, color: Role::Accent },
        ]),
        BlockView::ManualParagraph(seq![
            PartView { text: "The short command name"@, color: Role::Text },
            PartView { text: "nk"@, color: Role::Emphasis },
            PartView { text: "and the full executable name"@, color: Role::Text },
            PartView { text: "nightkrawler"@, color: Role::Emphasis },
            PartView { text: "refer to the same program when the short command is installed as a symlink or configured as a shell alias. Packaged installations should provide the"@, color: Role::Text },
            PartView { text: "nk"@, color: Role::Emphasis },
            PartView { text: "symlink automatically."@, color: Role::Text },
        ]),
        BlockView::Section("Scanning"@),
        BlockView::ManualParagraph(seq![
            PartView { text: "Nightkrawler scans regular files only. Symbolic links are not followed and are not added to duplicate groups."@, color: Role::Text },
        ]),
        BlockView::ManualParagraph(seq![
            PartView { text: "Without"@, color: Role::Text },
            PartView { text: "--recursive"@, color: Role::Emphasis },
            PartView { text: "or"@, color: Role::Text },
            PartView { text: "-R,"@, color: Role::Emphasis },
            PartView { text: "Nightkrawler inspects files directly under the selected scan path. Recursive mode descends into subdirectories."@, color: Role::Text },
        ]),
        BlockView::ManualParagraph(seq![
            PartView { text: "Dot-directories are skipped during recursive scanning unless"@, color: Role::Text },
            PartView { text: "--force-dotdirs"@, color: Role::Emphasis },
            PartView { text: "is supplied."@, color: Role::Text },
        ]),
    ]
}

/// Blocks 25 to 32 of the manual on the system `os`.
pub open spec fn manual_blocks_4(os: TargetOs) -> Seq<BlockView> {
    seq![
        BlockView::ManualParagraph(seq![
            PartView { text: "Paths supplied with"@, color: Role::Text },
            PartView { text: "--exclude"@, color: Role::Emphasis },
            PartView { text: "or"@, color: Role::Text },
            PartView { text: "-E"@, color: Role::Emphasis },
            PartView { text: "are omitted from scanning. Multiple excluded paths may be supplied after the option."@, color: Role::Text },
        ]),
        BlockView::ManualParagraph(seq![
            PartView { text: "When a quarantine directory is configured, Nightkrawler also excludes that quarantine tree from the scan so copied quarantine files cannot immediately become duplicate candidates themselves."@, color: Role::Text },
        ]),
        BlockView::ManualParagraph(seq![
            PartView { text: "Files are first grouped by size. Files with unique sizes require no further duplicate comparison. Matching-size candidates are hashed and then verified by direct byte comparison before they are accepted as identical."@, color: Role::Text },
        ]),
        BlockView::ManualParagraph(seq![
            PartView { text: "This final byte comparison prevents a hash match alone from being treated as proof that two files are identical."@, color: Role::Text },
        ]),
        BlockView::Section("Classification"@),
        BlockView::ManualParagraph(seq![
            PartView { text: "Nightkrawler classifies duplicate paths as"@, color: Role::Text },
            PartView { text: "ordinary, generated,"@, color: Role::Accent },
            PartView { text: "or"@, color: Role::Text },
            PartView { text: "protected."@, color: Role::Accent },
            PartView { text: "Classification helps distinguish normal files from generated trees and filesystem areas that deserve additional protection."@, color: Role::Text },
        ]),
        BlockView::Subsection("Ordinary"@, seq![
            PartView { text: "An ordinary path is a file that does not fall under a generated or protected path rule."@, color: Role::Text },
        ]),
        BlockView::Subsection("Generated"@, seq![
            PartView { text: "Generated paths are recognized when their path contains common generated-directory names such as"@, color: Role::Text },
            PartView { text: "target, build, dist, .cache, __pycache__, node_modules,"@, color: Role::Accent },
            PartView { text: "or"@, color: Role::Text },
            PartView { text: ".gradle."@, color: Role::Accent },
        ]),
    ]
}

/// Blocks 33 to 40 of the manual on the system `os`.
pub open spec fn manual_blocks_5(os: TargetOs) -> Seq<BlockView> {
    seq![
        BlockView::ManualParagraph(seq![
            PartView { text: "Generated classification does not automatically delete anything. It describes where the duplicate group was found and helps make reports easier to evaluate."@, color: Role::Text },
        ]),
        BlockView::Subsection("Protected"@, seq![
            PartView { text: "Protected paths are filesystem trees where action modes require explicit permission through"@, color: Role::Text },
            PartView { text: "--allow-protected."@, color: Role::Emphasis },
        ]),
        BlockView::ManualParagraph(seq![
            PartView { text: "Built-in protected roots include"@, color: Role::Text },
            PartView { text: "/boot, /etc,"@, color: Role::Accent },
            PartView { text: "and"@, color: Role::Text },
            PartView { text: "/root."@, color: Role::Accent },
        ]),
    ] + (if os == TargetOs::FreeBsd {
        seq![BlockView::ManualParagraph(seq![
            PartView { text: "On FreeBSD,"@, color: Role::Text },
            PartView { text: "/usr/local/etc"@, color: Role::Accent },
            PartView { text: "is also protected by default."@, color: Role::Text },
        ])]
    } else {
        seq![]
    }) + (if os == TargetOs::NetBsd {
        seq![BlockView::ManualParagraph(seq![
            PartView { text: "On NetBSD,"@, color: Role::Text },
            PartView { text: "/usr/pkg/etc"@, color: Role::Accent },
            PartView { text: "is also protected by default."@, color: Role::Text },
        ])]
    } else {
        seq![]
    }) + seq![
        BlockView::ManualParagraph(seq![
            PartView { text: "When"@, color: Role::Text },
            PartView { text: "HOME"@, color: Role::Emphasis },
            PartView { text: "is available, Nightkrawler also protects"@, color: Role::Text },
            PartView { text: "~/.ssh, ~/.gnupg,"@, color: Role::Accent },
            PartView { text: "and"@, color: Role::Text },
            PartView { text: "~/.config."@, color: Role::Accent },
        ]),
        BlockView::ManualParagraph(seq![
            PartView { text: "Additional protected trees may be supplied with"@, color: Role::Text },
            PartView { text: "--protect"@, color: Role::Emphasis },
            PartView { text: "or"@, color: Role::Text },
            PartView { text: "-P."@, color: Role::Emphasis },
        ]),
        BlockView::ManualParagraph(seq![
            PartView { text: "If any file in a duplicate group belongs to a more restrictive classification, the group is reported using that classification."@, color: Role::Text },
        ]),
    ]
}

/// Blocks 41 to 48 of the manual on the system `os`.
pub open spec fn manual_blocks_6(os: TargetOs) -> Seq<BlockView> {
    seq![
        BlockView::ManualParagraph(seq![
            PartView { text: "For a shorter explanation focused only on classification, use"@, color: Role::Text },
            PartView { text: "--classification-help."@, color: Role::Emphasis },
        ]),
        BlockView::Section("Keeper Selection"@),
        BlockView::ManualParagraph(seq![
            PartView { text: "Every duplicate group contains one file selected as the keeper. The remaining matching files become removable candidates."@, color: Role::Text },
        ]),
        BlockView::ManualParagraph(seq![
            PartView { text: "Keeper selection never means that Nightkrawler considers the other files different. All members of the group have already been verified as identical by content."@, color: Role::Text },
        ]),
        BlockView::Subsection("Default policy"@, seq![
            PartView { text: "The default keeper policy uses deterministic path-based ordering. Files under locations commonly associated with temporary or replaceable content are less preferred than ordinary locations."@, color: Role::Text },
        ]),
        BlockView::ManualParagraph(seq![
            PartView { text: "Examples of less-preferred locations include"@, color: Role::Text },
            PartView { text: "Downloads, .cache, .cargo, .gradle,"@, color: Role::Accent },
            PartView { text: "and"@, color: Role::Text },
            PartView { text: ".local/share."@, color: Role::Accent },
        ]),
        BlockView::ManualParagraph(seq![
            PartView { text: "When candidates remain tied, Nightkrawler uses path depth and pathname ordering to make the final choice reproducible."@, color: Role::Text },
        ]),
        BlockView::Subsection("--prefer"@, seq![
            PartView { text: "Use"@, color: Role::Text },
            PartView { text: "--prefer"@, color: Role::Emphasis },
            PartView { text: "or"@, color: Role::Text },
            PartView { text: "-p"@, color: Role::Emphasis },
            PartView { text: "to give one or more directory trees explicit keeper priority."@, color: Role::Text },
        ]),
    ]
}

/// Blocks 49 to 56 of the manual on the system `os`.
pub open spec fn manual_blocks_7(os: TargetOs) -> Seq<BlockView> {
    seq![
        BlockView::ManualParagraph(seq![
            PartView { text: "Preferred paths are ordered. The first path has the highest priority, followed by the second, and so on."@, color: Role::Text },
        ]),
        BlockView::Paragraph(seq![
            PartView { text: "nk ~ -R --min-size 100M --prefer ~/DevX ~/Documents"@, color: Role::Example },
        ], 4),
        BlockView::Blank,
        BlockView::ManualParagraph(seq![
            PartView { text: "In this example, a matching file under"@, color: Role::Text },
            PartView { text: "~/DevX"@, color: Role::Accent },
            PartView { text: "is preferred first. A matching file under"@, color: Role::Text },
            PartView { text: "~/Documents"@, color: Role::Accent },
            PartView { text: "has the next priority."@, color: Role::Text },
        ]),
        BlockView::Subsection("--keep-highest-version"@, seq![
            PartView { text: "The"@, color: Role::Text },
            PartView { text: "--keep-highest-version"@, color: Role::Emphasis },
            PartView { text: "policy searches pathname components for version-like values such as"@, color: Role::Text },
            PartView { text: "1.2, 2.0.1,"@, color: Role::Accent },
            PartView { text: "or"@, color: Role::Text },
            PartView { text: "v3.4."@, color: Role::Accent },
        ]),
        BlockView::ManualParagraph(seq![
            PartView { text: "When version-like candidates are available, Nightkrawler prefers the file associated with the highest detected version. Other keeper rules are used to break ties or when no usable version is found."@, color: Role::Text },
        ]),
        BlockView::ManualParagraph(seq![
            PartView { text: "Explicit"@, color: Role::Text },
            PartView { text: "--prefer"@, color: Role::Emphasis },
            PartView { text: "paths take priority before the selected keeper policy is applied."@, color: Role::Text },
        ]),
        BlockView::Section("Protection"@),
    ]
}

/// Blocks 57 to 64 of the manual on the system `os`.
pub open spec fn manual_blocks_8(os: TargetOs) -> Seq<BlockView> {
    seq![
        BlockView::ManualParagraph(seq![
            PartView { text: "Protection is separate from exclusion. An excluded path is not scanned. A protected path may still be scanned and reported, but action modes are prevented from operating on protected candidates unless explicit permission is given."@, color: Role::Text },
        ]),
        BlockView::ManualParagraph(seq![
            PartView { text: "Use"@, color: Role::Text },
            PartView { text: "--protect"@, color: Role::Emphasis },
            PartView { text: "or"@, color: Role::Text },
            PartView { text: "-P"@, color: Role::Emphasis },
            PartView { text: "to add one or more protected path trees for the current command."@, color: Role::Text },
        ]),
        BlockView::Paragraph(seq![
            PartView { text: "nk ~ -R --min-size 100M --protect ~/.sensitive"@, color: Role::Example },
        ], 4),
        BlockView::Blank,
        BlockView::ManualParagraph(seq![
            PartView { text: "The protected tree remains visible to classification and reporting. Protection becomes decisive when"@, color: Role::Text },
            PartView { text: "--quarantine, --trash,"@, color: Role::Emphasis },
            PartView { text: "or"@, color: Role::Text },
            PartView { text: "--delete"@, color: Role::Emphasis },
            PartView { text: "would act on a protected removable candidate."@, color: Role::Text },
        ]),
        BlockView::ManualParagraph(seq![
            PartView { text: "If a protected removable candidate is found during an action mode, Nightkrawler performs a safety stop unless"@, color: Role::Text },
            PartView { text: "--allow-protected"@, color: Role::Emphasis },
            PartView { text: "was supplied."@, color: Role::Text },
        ]),
        BlockView::ManualParagraph(seq![
            PartView { text: "The safety stop identifies the protected candidate, the matching protected root, and the scan path. Original files are not changed by the refused action."@, color: Role::Text },
        ]),
        BlockView::ManualParagraph(seq![
            PartView { text: "--allow-protected"@, color: Role::Emphasis },
            PartView { text: "is therefore an explicit override. It should be used only when action on the protected candidates is intentional."@, color: Role::Text },
        ]),
    ]
}

/// Blocks 65 to 72 of the manual on the system `os`.
pub open spec fn manual_blocks_9(os: TargetOs) -> Seq<BlockView> {
    seq![
        BlockView::ManualParagraph(seq![
            PartView { text: "For ordinary report-only inspection,"@, color: Role::Text },
            PartView { text: "--protect"@, color: Role::Emphasis },
            PartView { text: "is still useful because the classification and generated report will identify matching groups as protected."@, color: Role::Text },
        ]),
        BlockView::Section("Action Modes"@),
        BlockView::ManualParagraph(seq![
            PartView { text: "Nightkrawler has three action modes:"@, color: Role::Text },
            PartView { text: "--quarantine, --trash,"@, color: Role::Emphasis },
            PartView { text: "and"@, color: Role::Text },
            PartView { text: "--delete."@, color: Role::Emphasis },
            PartView { text: "Without an action mode, a scan is report-only."@, color: Role::Text },
        ]),
        BlockView::Subsection("--quarantine"@, seq![
            PartView { text: "Copies removable duplicates into a quarantine directory while leaving the original files in place."@, color: Role::Text },
        ]),
        BlockView::Subsection("--trash"@, seq![
            PartView { text: "Moves removable duplicates to the system Trash implementation."@, color: Role::Text },
        ]),
        BlockView::Subsection("--delete"@, seq![
            PartView { text: "Permanently removes removable duplicate files from their original locations."@, color: Role::Text },
        ]),
        BlockView::ManualParagraph(seq![
            PartView { text: "--trash"@, color: Role::Emphasis },
            PartView { text: "and"@, color: Role::Text },
            PartView { text: "--delete"@, color: Role::Emphasis },
            PartView { text: "are mutually exclusive. Choose one destructive action for a scan."@, color: Role::Text },
        ]),
        BlockView::ManualParagraph(seq![
            PartView { text: "--quarantine"@, color: Role::Emphasis },
            PartView { text: "may be combined with either"@, color: Role::Text },
            PartView { text: "--trash"@, color: Role::Emphasis },
            PartView { text: "or"@, color: Role::Text },
            PartView { text: "--delete."@, color: Role::Emphasis },
            PartView { text: "In that workflow, Nightkrawler creates the quarantine copies before changing the originals."@, color: Role::Text },
        ]),
    ]
}

/// Blocks 73 to 80 of the manual on the system `os`.
pub open spec fn manual_blocks_10(os: TargetOs) -> Seq<BlockView> {
    seq![
        BlockView::ManualParagraph(seq![
            PartView { text: "--interactive"@, color: Role::Emphasis },
            PartView { text: "may be used with"@, color: Role::Text },
            PartView { text: "--trash"@, color: Role::Emphasis },
            PartView { text: "or"@, color: Role::Text },
            PartView { text: "--delete"@, color: Role::Emphasis },
            PartView { text: "to ask before each destructive action. It does not make quarantine copying interactive."@, color: Role::Text },
        ]),
        BlockView::Section("Quarantine"@),
        BlockView::ManualParagraph(seq![
            PartView { text: "Quarantine is Nightkrawler's recoverable copy stage. Use"@, color: Role::Text },
            PartView { text: "--quarantine"@, color: Role::Emphasis },
            PartView { text: "or"@, color: Role::Text },
            PartView { text: "-q"@, color: Role::Emphasis },
            PartView { text: "followed by the directory where removable duplicate copies should be stored."@, color: Role::Text },
        ]),
        BlockView::Paragraph(seq![
            PartView { text: "nk ~/Downloads -R --min-size 100M -q ~/nk-quarantine"@, color: Role::Example },
        ], 4),
        BlockView::Blank,
        BlockView::ManualParagraph(seq![
            PartView { text: "Nightkrawler preserves the scanned path structure below the quarantine directory where possible. If a destination name already exists, a unique Nightkrawler suffix is added rather than overwriting the existing quarantine file."@, color: Role::Text },
        ]),
        BlockView::ManualParagraph(seq![
            PartView { text: "Before copying begins, Nightkrawler calculates the total size of the removable duplicates and checks the available free space on the filesystem containing the quarantine directory."@, color: Role::Text },
        ]),
        BlockView::ManualParagraph(seq![
            PartView { text: "If there is not enough free space, quarantine is refused before files are copied."@, color: Role::Text },
        ]),
    ]
}

/// Blocks 81 to 88 of the manual on the system `os`.
pub open spec fn manual_blocks_11(os: TargetOs) -> Seq<BlockView> {
    seq![
        BlockView::ManualParagraph(seq![
            PartView { text: "A quarantine manifest records the original path, quarantine path, and size of each copied file. The current manifest format stores Unix pathnames as their original bytes rather than relying on tab- or newline-separated text fields."@, color: Role::Text },
        ]),
        BlockView::ManualParagraph(seq![
            PartView { text: "This allows valid Unix filenames containing tabs, newlines, spaces, or non-UTF-8 pathname bytes to be represented without using those characters as field separators."@, color: Role::Text },
        ]),
        BlockView::ManualParagraph(seq![
            PartView { text: "When quarantine is combined with"@, color: Role::Text },
            PartView { text: "--trash"@, color: Role::Emphasis },
            PartView { text: "or"@, color: Role::Text },
            PartView { text: "--delete,"@, color: Role::Emphasis },
            PartView { text: "the destructive stage is allowed to proceed only if all intended quarantine copies completed successfully."@, color: Role::Text },
        ]),
        BlockView::ManualParagraph(seq![
            PartView { text: "If quarantine copying fails or is incomplete, Nightkrawler performs a safety stop and refuses the Trash or delete stage. Original files are left unchanged by the refused destructive action."@, color: Role::Text },
        ]),
        BlockView::Section("Restore and Cleanup"@),
        BlockView::Subsection("--restore"@, seq![
            PartView { text: "Restores files recorded in a Nightkrawler quarantine manifest to their original paths."@, color: Role::Text },
        ]),
        BlockView::Paragraph(seq![
            PartView { text: "nk --restore ~/nk-quarantine"@, color: Role::Example },
        ], 4),
        BlockView::Blank,
    ]
}

/// Blocks 89 to 96 of the manual on the system `os`.
pub open spec fn manual_blocks_12(os: TargetOs) -> Seq<BlockView> {
    seq![
        BlockView::ManualParagraph(seq![
            PartView { text: "The short form"@, color: Role::Text },
            PartView { text: "-u"@, color: Role::Emphasis },
            PartView { text: "may be used instead of"@, color: Role::Text },
            PartView { text: "--restore."@, color: Role::Emphasis },
        ]),
        BlockView::ManualParagraph(seq![
            PartView { text: "If the original path already exists, that record is skipped rather than overwritten."@, color: Role::Text },
        ]),
        BlockView::ManualParagraph(seq![
            PartView { text: "If the original parent directory no longer exists, Nightkrawler recreates the required directory path before restoring the file."@, color: Role::Text },
        ]),
        BlockView::ManualParagraph(seq![
            PartView { text: "Restore copies files back to their original locations. The quarantine remains available until it is cleaned separately."@, color: Role::Text },
        ]),
        BlockView::Subsection("--cleanup"@, seq![
            PartView { text: "Removes a recognized Nightkrawler quarantine directory after it is no longer needed."@, color: Role::Text },
        ]),
        BlockView::Paragraph(seq![
            PartView { text: "nk --cleanup ~/nk-quarantine"@, color: Role::Example },
        ], 4),
        BlockView::Blank,
        BlockView::ManualParagraph(seq![
            PartView { text: "The short form"@, color: Role::Text },
            PartView { text: "-c"@, color: Role::Emphasis },
            PartView { text: "may be used instead of"@, color: Role::Text },
            PartView { text: "--cleanup."@, color: Role::Emphasis },
        ]),
    ]
}

/// Blocks 97 to 104 of the manual on the system `os`.
pub open spec fn manual_blocks_13(os: TargetOs) -> Seq<BlockView> {
    seq![
        BlockView::ManualParagraph(seq![
            PartView { text: "Cleanup is deliberately guarded against dangerous targets. Nightkrawler refuses to clean the filesystem root, the user's home directory, or the current working directory."@, color: Role::Text },
        ]),
        BlockView::ManualParagraph(seq![
            PartView { text: "A missing or empty quarantine is treated as having nothing to clean rather than as a destructive cleanup operation."@, color: Role::Text },
        ]),
        BlockView::ManualParagraph(seq![
            PartView { text: "Before removing a populated directory, cleanup verifies that the directory contains a recognized Nightkrawler quarantine manifest."@, color: Role::Text },
        ]),
        BlockView::Section("Reports"@),
        BlockView::ManualParagraph(seq![
            PartView { text: "When duplicate groups are found, Nightkrawler writes a detailed text report after processing the scan."@, color: Role::Text },
        ]),
        BlockView::ManualParagraph(seq![
            PartView { text: "Without"@, color: Role::Text },
            PartView { text: "--report"@, color: Role::Emphasis },
            PartView { text: "or"@, color: Role::Text },
            PartView { text: "-r,"@, color: Role::Emphasis },
            PartView { text: "the report is created in the current directory with an automatically generated filename."@, color: Role::Text },
        ]),
        BlockView::ManualParagraph(seq![
            PartView { text: "If"@, color: Role::Text },
            PartView { text: "--report"@, color: Role::Emphasis },
            PartView { text: "points to an existing directory, Nightkrawler places an automatically named report inside that directory. Otherwise, the supplied path is used as the report filename."@, color: Role::Text },
        ]),
        BlockView::ManualParagraph(seq![
            PartView { text: "Reports include scan date, operating system, architecture, hostname, scan duration, scan root, minimum size, recursive state, action mode, keeper policy, excluded paths, protected paths, duplicate groups, keeper paths, removable candidates, and reclaimable space."@, color: Role::Text },
        ]),
    ]
}

/// Blocks 105 to 112 of the manual on the system `os`.
pub open spec fn manual_blocks_14(os: TargetOs) -> Seq<BlockView> {
    seq![
        BlockView::ManualParagraph(seq![
            PartView { text: "Duplicate groups are divided into"@, color: Role::Text },
            PartView { text: "Protected, Generated,"@, color: Role::Accent },
            PartView { text: "and"@, color: Role::Text },
            PartView { text: "Ordinary"@, color: Role::Accent },
            PartView { text: "sections when those classifications are present."@, color: Role::Text },
        ]),
        BlockView::ManualParagraph(seq![
            PartView { text: "When quarantine was used, the report also records the number of copied files and the quarantine location."@, color: Role::Text },
        ]),
        BlockView::Section("Safety"@),
        BlockView::ManualParagraph(seq![
            PartView { text: "Nightkrawler is designed so that inspection and action remain separate. A normal scan reports duplicate candidates without changing files."@, color: Role::Text },
        ]),
        BlockView::ManualParagraph(seq![
            PartView { text: "One file from every verified duplicate group is selected as the keeper. Trash and delete operate only on the remaining removable members."@, color: Role::Text },
        ]),
        BlockView::ManualParagraph(seq![
            PartView { text: "Nightkrawler does not follow symbolic links."@, color: Role::Text },
        ]),
        BlockView::ManualParagraph(seq![
            PartView { text: "Dot-directories are skipped recursively unless"@, color: Role::Text },
            PartView { text: "--force-dotdirs"@, color: Role::Emphasis },
            PartView { text: "is explicitly supplied."@, color: Role::Text },
        ]),
        BlockView::ManualParagraph(seq![
            PartView { text: "Protected removable candidates stop action modes unless"@, color: Role::Text },
            PartView { text: "--allow-protected"@, color: Role::Emphasis },
            PartView { text: "was supplied."@, color: Role::Text },
        ]),
    ]
}

/// Blocks 113 to 120 of the manual on the system `os`.
pub open spec fn manual_blocks_15(os: TargetOs) -> Seq<BlockView> {
    seq![
        BlockView::ManualParagraph(seq![
            PartView { text: "Quarantine checks available space before copying. When quarantine precedes Trash or delete, the destructive stage is refused unless the quarantine copy completed cleanly."@, color: Role::Text },
        ]),
        BlockView::ManualParagraph(seq![
            PartView { text: "--interactive"@, color: Role::Emphasis },
            PartView { text: "offers each removable candidate individually before Trash or permanent deletion."@, color: Role::Text },
        ]),
        BlockView::ManualParagraph(seq![
            PartView { text: "Restoration never overwrites an existing original path. Existing destinations are counted as skipped."@, color: Role::Text },
        ]),
        BlockView::ManualParagraph(seq![
            PartView { text: "Cleanup contains additional target guards because removing an entire directory tree carries different risks from ordinary duplicate processing."@, color: Role::Text },
        ]),
        BlockView::Section("Examples"@),
        BlockView::Example(seq![
            PartView { text: "Report duplicate files 100MB or larger under"@, color: Role::Text },
            PartView { text: "~/Downloads:"@, color: Role::Accent },
        ], "nk ~/Downloads --min-size 100M"@),
        BlockView::Example(seq![
            PartView { text: "Scan recursively and exclude selected directory trees:"@, color: Role::Text },
        ], "nk ~ -R --min-size 100M -E ~/bin ~/PycharmProjects ~/snap"@),
        BlockView::Example(seq![
            PartView { text: "Prefer keeping matching files under"@, color: Role::Text },
            PartView { text: "~/DevX"@, color: Role::Accent },
            PartView { text: "before"@, color: Role::Text },
            PartView { text: "~/Documents:"@, color: Role::Accent },
        ], "nk ~ -R --min-size 100M -p ~/DevX ~/Documents"@),
    ]
}

/// Blocks 121 to 127 of the manual on the system `os`.
pub open spec fn manual_blocks_16(os: TargetOs) -> Seq<BlockView> {
    seq![
        BlockView::Example(seq![
            PartView { text: "Create recoverable quarantine copies without changing the originals:"@, color: Role::Text },
        ], "nk ~/Downloads -R --min-size 100M -q ~/nk-quarantine"@),
        BlockView::Example(seq![
            PartView { text: "Quarantine removable duplicates first, then offer each original for permanent deletion:"@, color: Role::Text },
        ], "nk ~/Downloads -R --min-size 100M -q ~/nk-quarantine -d -i"@),
        BlockView::Example(seq![
            PartView { text: "Restore files from a Nightkrawler quarantine:"@, color: Role::Text },
        ], "nk --restore ~/nk-quarantine"@),
        BlockView::Example(seq![
            PartView { text: "Remove a quarantine after it is no longer needed:"@, color: Role::Text },
        ], "nk --cleanup ~/nk-quarantine"@),
        BlockView::ManualParagraph(seq![
            PartView { text: "For a compact command reference, use"@, color: Role::Text },
            PartView { text: "--help."@, color: Role::Emphasis },
            PartView { text: "For focused information about ordinary, generated, and protected classifications, use"@, color: Role::Text },
            PartView { text: "--classification-help."@, color: Role::Emphasis },
        ]),
        BlockView::Bottom,
        BlockView::Bottom,
    ]
}

/// The manual on the system `os`, as blocks.
pub open spec fn manual_blocks(os: TargetOs) -> Seq<BlockView> {
    manual_blocks_1(os) + manual_blocks_2(os) + manual_blocks_3(os) + manual_blocks_4(os) + manual_blocks_5(os) + manual_blocks_6(os) + manual_blocks_7(os) + manual_blocks_8(os) + manual_blocks_9(os) + manual_blocks_10(os) + manual_blocks_11(os) + manual_blocks_12(os) + manual_blocks_13(os) + manual_blocks_14(os) + manual_blocks_15(os) + manual_blocks_16(os)
}

#[verifier::spinoff_prover]
fn manual_document_part_1(doc: &mut Vec<ManualBlock>, os: TargetOs)
    requires
        descriptions_fit(blocks_view(old(doc)@)),
    ensures
        descriptions_fit(blocks_view(final(doc)@)),
        blocks_view(final(doc)@) == blocks_view(old(doc)@) + manual_blocks_1(os),
{
    let ghost start = blocks_view(doc@);
    append_block(doc, ManualBlock::Top);
    append_block(doc, ManualBlock::Line("Nightkrawler Manual", Role::Title));
    append_block(doc, ManualBlock::Separator);
    append_block(doc, ManualBlock::Blank);
    let parts = vec![
        ManualPart { text: "Nightkrawler is a duplicate file finder and removal tool designed around cautious inspection, explicit action modes, and recoverable workflows.", color: Role::Text },
    ];
    assert(parts_view(parts@) =~= seq![
        PartView { text: "Nightkrawler is a duplicate file finder and removal tool designed around cautious inspection, explicit action modes, and recoverable workflows."@, color: Role::Text },
    ]);
    append_block(doc, ManualBlock::ManualParagraph(parts));
    append_block(doc, ManualBlock::Section("Overview"));
    let parts = vec![
        ManualPart { text: "Nightkrawler scans regular files, groups files with identical content, chooses one file from each duplicate group to keep, and identifies the remaining copies as removable duplicates.", color: Role::Text },
    ];
    assert(parts_view(parts@) =~= seq![
        PartView { text: "Nightkrawler scans regular files, groups files with identical content, chooses one file from each duplicate group to keep, and identifies the remaining copies as removable duplicates."@, color: Role::Text },
    ]);
    append_block(doc, ManualBlock::ManualParagraph(parts));
    let parts = vec![
        ManualPart { text: "Without", color: Role::Text },
        ManualPart { text: "--quarantine, --trash,", color: Role::Emphasis },
        ManualPart { text: "or", color: Role::Text },
        ManualPart { text: "--delete,", color: Role::Emphasis },
        ManualPart { text: "Nightkrawler operates in report-only mode. It scans and reports duplicate groups without changing the original files.", color: Role::Text },
    ];
    assert(parts_view(parts@) =~= seq![
        PartView { text: "Without"@, color: Role::Text },
        PartView { text: "--quarantine, --trash,"@, color: Role::Emphasis },
        PartView { text: "or"@, color: Role::Text },
        PartView { text: "--delete,"@, color: Role::Emphasis },
        PartView { text: "Nightkrawler operates in report-only mode. It scans and reports duplicate groups without changing the original files."@, color: Role::Text },
    ]);
    append_block(doc, ManualBlock::ManualParagraph(parts));
    assert(blocks_view(doc@) =~= start + manual_blocks_1(os));
}

#[verifier::spinoff_prover]
fn manual_document_part_2(doc: &mut Vec<ManualBlock>, os: TargetOs)
    requires
        descriptions_fit(blocks_view(old(doc)@)),
    ensures
        descriptions_fit(blocks_view(final(doc)@)),
        blocks_view(final(doc)@) == blocks_view(old(doc)@) + manual_blocks_2(os),
{
    let ghost start = blocks_view(doc@);
    let parts = vec![
        ManualPart { text: "A duplicate group always keeps one matching file. Action modes operate only on the removable members of the group.", color: Role::Text },
    ];
    assert(parts_view(parts@) =~= seq![
        PartView { text: "A duplicate group always keeps one matching file. Action modes operate only on the removable members of the group."@, color: Role::Text },
    ]);
    append_block(doc, ManualBlock::ManualParagraph(parts));
    let parts = vec![
        ManualPart { text: "Nightkrawler compares file contents rather than filenames. Files may have completely different names and still belong to the same duplicate group when their contents are identical.", color: Role::Text },
    ];
    assert(parts_view(parts@) =~= seq![
        PartView { text: "Nightkrawler compares file contents rather than filenames. Files may have completely different names and still belong to the same duplicate group when their contents are identical."@, color: Role::Text },
    ]);
    append_block(doc, ManualBlock::ManualParagraph(parts));
    let parts = vec![
        ManualPart { text: "Zero-byte files follow the same duplicate rule as every other regular file. If several zero-byte files form a duplicate group, one is kept and the others are treated as removable duplicates.", color: Role::Text },
    ];
    assert(parts_view(parts@) =~= seq![
        PartView { text: "Zero-byte files follow the same duplicate rule as every other regular file. If several zero-byte files form a duplicate group, one is kept and the others are treated as removable duplicates."@, color: Role::Text },
    ]);
    append_block(doc, ManualBlock::ManualParagraph(parts));
    append_block(doc, ManualBlock::Blank);
    append_block(doc, ManualBlock::Section("Usage"));
    let parts = vec![
        ManualPart { text: "nk", color: Role::Option },
        ManualPart { text: "PATH", color: Role::Emphasis },
        ManualPart { text: "--min-size", color: Role::Option },
        ManualPart { text: "SIZE", color: Role::Emphasis },
        ManualPart { text: "[options]", color: Role::Emphasis },
    ];
    assert(parts_view(parts@) =~= seq![
        PartView { text: "nk"@, color: Role::Option },
        PartView { text: "PATH"@, color: Role::Emphasis },
        PartView { text: "--min-size"@, color: Role::Option },
        PartView { text: "SIZE"@, color: Role::Emphasis },
        PartView { text: "[options]"@, color: Role::Emphasis },
    ]);
    append_block(doc, ManualBlock::Paragraph(parts, 4));
    let parts = vec![
        ManualPart { text: "nightkrawler", color: Role::Option },
        ManualPart { text: "PATH", color: Role::Emphasis },
        ManualPart { text: "--min-size", color: Role::Option },
        ManualPart { text: "SIZE", color: Role::Emphasis },
        ManualPart { text: "[options]", color: Role::Emphasis },
    ];
    assert(parts_view(parts@) =~= seq![
        PartView { text: "nightkrawler"@, color: Role::Option },
        PartView { text: "PATH"@, color: Role::Emphasis },
        PartView { text: "--min-size"@, color: Role::Option },
        PartView { text: "SIZE"@, color: Role::Emphasis },
        PartView { text: "[options]"@, color: Role::Emphasis },
    ]);
    append_block(doc, ManualBlock::Paragraph(parts, 4));
    append_block(doc, ManualBlock::Blank);
    assert(blocks_view(doc@) =~= start + manual_blocks_2(os));
}

#[verifier::spinoff_prover]
fn manual_document_part_3(doc: &mut Vec<ManualBlock>, os: TargetOs)
    requires
        descriptions_fit(blocks_view(old(doc)@)),
    ensures
        descriptions_fit(blocks_view(final(doc)@)),
        blocks_view(final(doc)@) == blocks_view(old(doc)@) + manual_blocks_3(os),
{
    let ghost start = blocks_view(doc@);
    let parts = vec![
        ManualPart { text: "PATH", color: Role::Emphasis },
        ManualPart { text: "is the directory or file tree Nightkrawler will inspect. Only one scan path may be supplied.", color: Role::Text },
    ];
    assert(parts_view(parts@) =~= seq![
        PartView { text: "PATH"@, color: Role::Emphasis },
        PartView { text: "is the directory or file tree Nightkrawler will inspect. Only one scan path may be supplied."@, color: Role::Text },
    ]);
    append_block(doc, ManualBlock::ManualParagraph(parts));
    let parts = vec![
        ManualPart { text: "--min-size", color: Role::Emphasis },
        ManualPart { text: "is required for scan commands. Files smaller than the selected threshold are ignored before duplicate comparison begins.", color: Role::Text },
    ];
    assert(parts_view(parts@) =~= seq![
        PartView { text: "--min-size"@, color: Role::Emphasis },
        PartView { text: "is required for scan commands. Files smaller than the selected threshold are ignored before duplicate comparison begins."@, color: Role::Text },
    ]);
    append_block(doc, ManualBlock::ManualParagraph(parts));
    let parts = vec![
        ManualPart { text: "SIZE", color: Role::Emphasis },
        ManualPart { text: "accepts byte values or binary-style suffixes such as", color: Role::Text },
        ManualPart { text: "100K, 10M, 1G,", color: Role::Accent },
        ManualPart { text: "and", color: Role::Text },
        ManualPart { text: "1T.", color: Role::Accent },
    ];
    assert(parts_view(parts@) =~= seq![
        PartView { text: "SIZE"@, color: Role::Emphasis },
        PartView { text: "accepts byte values or binary-style suffixes such as"@, color: Role::Text },
        PartView { text: "100K, 10M, 1G,"@, color: Role::Accent },
        PartView { text: "and"@, color: Role::Text },
        PartView { text: "1T."@, color: Role::Accent },
    ]);
    append_block(doc, ManualBlock::ManualParagraph(parts));
    let parts = vec![
        ManualPart { text: "The short command name", color: Role::Text },
        ManualPart { text: "nk", color: Role::Emphasis },
        ManualPart { text: "and the full executable name", color: Role::Text },
        ManualPart { text: "nightkrawler", color: Role::Emphasis },
        ManualPart { text: "refer to the same program when the short command is installed as a symlink or configured as a shell alias. Packaged installations should provide the", color: Role::Text },
        ManualPart { text: "nk", color: Role::Emphasis },
        ManualPart { text: "symlink automatically.", color: Role::Text },
    ];
    assert(parts_view(parts@) =~= seq![
        PartView { text: "The short command name"@, color: Role::Text },
        PartView { text: "nk"@, color: Role::Emphasis },
        PartView { text: "and the full executable name"@, color: Role::Text },
        PartView { text: "nightkrawler"@, color: Role::Emphasis },
        PartView { text: "refer to the same program when the short command is installed as a symlink or configured as a shell alias. Packaged installations should provide the"@, color: Role::Text },
        PartView { text: "nk"@, color: Role::Emphasis },
        PartView { text: "symlink automatically."@, color: Role::Text },
    ]);
    append_block(doc, ManualBlock::ManualParagraph(parts));
    append_block(doc, ManualBlock::Section("Scanning"));
    let parts = vec![
        ManualPart { text: "Nightkrawler scans regular files only. Symbolic links are not followed and are not added to duplicate groups.", color: Role::Text },
    ];
    assert(parts_view(parts@) =~= seq![
        PartView { text: "Nightkrawler scans regular files only. Symbolic links are not followed and are not added to duplicate groups."@, color: Role::Text },
    ]);
    append_block(doc, ManualBlock::ManualParagraph(parts));
    let parts = vec![
        ManualPart { text: "Without", color: Role::Text },
        ManualPart { text: "--recursive", color: Role::Emphasis },
        ManualPart { text: "or", color: Role::Text },
        ManualPart { text: "-R,", color: Role::Emphasis },
        ManualPart { text: "Nightkrawler inspects files directly under the selected scan path. Recursive mode descends into subdirectories.", color: Role::Text },
    ];
    assert(parts_view(parts@) =~= seq![
        PartView { text: "Without"@, color: Role::Text },
        PartView { text: "--recursive"@, color: Role::Emphasis },
        PartView { text: "or"@, color: Role::Text },
        PartView { text: "-R,"@, color: Role::Emphasis },
        PartView { text: "Nightkrawler inspects files directly under the selected scan path. Recursive mode descends into subdirectories."@, color: Role::Text },
    ]);
    append_block(doc, ManualBlock::ManualParagraph(parts));
    let parts = vec![
        ManualPart { text: "Dot-directories are skipped during recursive scanning unless", color: Role::Text },
        ManualPart { text: "--force-dotdirs", color: Role::Emphasis },
        ManualPart { text: "is supplied.", color: Role::Text },
    ];
    assert(parts_view(parts@) =~= seq![
        PartView { text: "Dot-directories are skipped during recursive scanning unless"@, color: Role::Text },
        PartView { text: "--force-dotdirs"@, color: Role::Emphasis },
        PartView { text: "is supplied."@, color: Role::Text },
    ]);
    append_block(doc, ManualBlock::ManualParagraph(parts));
    assert(blocks_view(doc@) =~= start + manual_blocks_3(os));
}

#[verifier::spinoff_prover]
fn manual_document_part_4(doc: &mut Vec<ManualBlock>, os: TargetOs)
    requires
        descriptions_fit(blocks_view(old(doc)@)),
    ensures
        descriptions_fit(blocks_view(final(doc)@)),
        blocks_view(final(doc)@) == blocks_view(old(doc)@) + manual_blocks_4(os),
{
    let ghost start = blocks_view(doc@);
    let parts = vec![
        ManualPart { text: "Paths supplied with", color: Role::Text },
        ManualPart { text: "--exclude", color: Role::Emphasis },
        ManualPart { text: "or", color: Role::Text },
        ManualPart { text: "-E", color: Role::Emphasis },
        ManualPart { text: "are omitted from scanning. Multiple excluded paths may be supplied after the option.", color: Role::Text },
    ];
    assert(parts_view(parts@) =~= seq![
        PartView { text: "Paths supplied with"@, color: Role::Text },
        PartView { text: "--exclude"@, color: Role::Emphasis },
        PartView { text: "or"@, color: Role::Text },
        PartView { text: "-E"@, color: Role::Emphasis },
        PartView { text: "are omitted from scanning. Multiple excluded paths may be supplied after the option."@, color: Role::Text },
    ]);
    append_block(doc, ManualBlock::ManualParagraph(parts));
    let parts = vec![
        ManualPart { text: "When a quarantine directory is configured, Nightkrawler also excludes that quarantine tree from the scan so copied quarantine files cannot immediately become duplicate candidates themselves.", color: Role::Text },
    ];
    assert(parts_view(parts@) =~= seq![
        PartView { text: "When a quarantine directory is configured, Nightkrawler also excludes that quarantine tree from the scan so copied quarantine files cannot immediately become duplicate candidates themselves."@, color: Role::Text },
    ]);
    append_block(doc, ManualBlock::ManualParagraph(parts));
    let parts = vec![
        ManualPart { text: "Files are first grouped by size. Files with unique sizes require no further duplicate comparison. Matching-size candidates are hashed and then verified by direct byte comparison before they are accepted as identical.", color: Role::Text },
    ];
    assert(parts_view(parts@) =~= seq![
        PartView { text: "Files are first grouped by size. Files with unique sizes require no further duplicate comparison. Matching-size candidates are hashed and then verified by direct byte comparison before they are accepted as identical."@, color: Role::Text },
    ]);
    append_block(doc, ManualBlock::ManualParagraph(parts));
    let parts = vec![
        ManualPart { text: "This final byte comparison prevents a hash match alone from being treated as proof that two files are identical.", color: Role::Text },
    ];
    assert(parts_view(parts@) =~= seq![
        PartView { text: "This final byte comparison prevents a hash match alone from being treated as proof that two files are identical."@, color: Role::Text },
    ]);
    append_block(doc, ManualBlock::ManualParagraph(parts));
    append_block(doc, ManualBlock::Section("Classification"));
    let parts = vec![
        ManualPart { text: "Nightkrawler classifies duplicate paths as", color: Role::Text },
        ManualPart { text: "ordinary, generated,", color: Role::Accent },
        ManualPart { text: "or", color: Role::Text },
        ManualPart { text: "protected.", color: Role::Accent },
        ManualPart { text: "Classification helps distinguish normal files from generated trees and filesystem areas that deserve additional protection.", color: Role::Text },
    ];
    assert(parts_view(parts@) =~= seq![
        PartView { text: "Nightkrawler classifies duplicate paths as"@, color: Role::Text },
        PartView { text: "ordinary, generated,"@, color: Role::Accent },
        PartView { text: "or"@, color: Role::Text },
        PartView { text: "protected."@, color: Role::Accent },
        PartView { text: "Classification helps distinguish normal files from generated trees and filesystem areas that deserve additional protection."@, color: Role::Text },
    ]);
    append_block(doc, ManualBlock::ManualParagraph(parts));
    let parts = vec![
        ManualPart { text: "An ordinary path is a file that does not fall under a generated or protected path rule.", color: Role::Text },
    ];
    assert(parts_view(parts@) =~= seq![
        PartView { text: "An ordinary path is a file that does not fall under a generated or protected path rule."@, color: Role::Text },
    ]);
    append_block(doc, ManualBlock::Subsection("Ordinary", parts));
    let parts = vec![
        ManualPart { text: "Generated paths are recognized when their path contains common generated-directory names such as", color: Role::Text },
        ManualPart { text: "target, build, dist, .cache, __pycache__, node_modules,", color: Role::Accent },
        ManualPart { text: "or", color: Role::Text },
        ManualPart { text: ".gradle.", color: Role::Accent },
    ];
    assert(parts_view(parts@) =~= seq![
        PartView { text: "Generated paths are recognized when their path contains common generated-directory names such as"@, color: Role::Text },
        PartView { text: "target, build, dist, .cache, __pycache__, node_modules,"@, color: Role::Accent },
        PartView { text: "or"@, color: Role::Text },
        PartView { text: ".gradle."@, color: Role::Accent },
    ]);
    append_block(doc, ManualBlock::Subsection("Generated", parts));
    assert(blocks_view(doc@) =~= start + manual_blocks_4(os));
}

#[verifier::spinoff_prover]
fn manual_document_part_5(doc: &mut Vec<ManualBlock>, os: TargetOs)
    requires
        descriptions_fit(blocks_view(old(doc)@)),
    ensures
        descriptions_fit(blocks_view(final(doc)@)),
        blocks_view(final(doc)@) == blocks_view(old(doc)@) + manual_blocks_5(os),
{
    let ghost start = blocks_view(doc@);
    let parts = vec![
        ManualPart { text: "Generated classification does not automatically delete anything. It describes where the duplicate group was found and helps make reports easier to evaluate.", color: Role::Text },
    ];
    assert(parts_view(parts@) =~= seq![
        PartView { text: "Generated classification does not automatically delete anything. It describes where the duplicate group was found and helps make reports easier to evaluate."@, color: Role::Text },
    ]);
    append_block(doc, ManualBlock::ManualParagraph(parts));
    let parts = vec![
        ManualPart { text: "Protected paths are filesystem trees where action modes require explicit permission through", color: Role::Text },
        ManualPart { text: "--allow-protected.", color: Role::Emphasis },
    ];
    assert(parts_view(parts@) =~= seq![
        PartView { text: "Protected paths are filesystem trees where action modes require explicit permission through"@, color: Role::Text },
        PartView { text: "--allow-protected."@, color: Role::Emphasis },
    ]);
    append_block(doc, ManualBlock::Subsection("Protected", parts));
    let parts = vec![
        ManualPart { text: "Built-in protected roots include", color: Role::Text },
        ManualPart { text: "/boot, /etc,", color: Role::Accent },
        ManualPart { text: "and", color: Role::Text },
        ManualPart { text: "/root.", color: Role::Accent },
    ];
    assert(parts_view(parts@) =~= seq![
        PartView { text: "Built-in protected roots include"@, color: Role::Text },
        PartView { text: "/boot, /etc,"@, color: Role::Accent },
        PartView { text: "and"@, color: Role::Text },
        PartView { text: "/root."@, color: Role::Accent },
    ]);
    append_block(doc, ManualBlock::ManualParagraph(parts));
    match os {
        TargetOs::FreeBsd => {
            let parts = vec![
                ManualPart { text: "On FreeBSD,", color: Role::Text },
                ManualPart { text: "/usr/local/etc", color: Role::Accent },
                ManualPart { text: "is also protected by default.", color: Role::Text },
            ];
            assert(parts_view(parts@) =~= seq![
                PartView { text: "On FreeBSD,"@, color: Role::Text },
                PartView { text: "/usr/local/etc"@, color: Role::Accent },
                PartView { text: "is also protected by default."@, color: Role::Text },
            ]);
            append_block(doc, ManualBlock::ManualParagraph(parts));
        },
        _ => {},
    }
    match os {
        TargetOs::NetBsd => {
            let parts = vec![
                ManualPart { text: "On NetBSD,", color: Role::Text },
                ManualPart { text: "/usr/pkg/etc", color: Role::Accent },
                ManualPart { text: "is also protected by default.", color: Role::Text },
            ];
            assert(parts_view(parts@) =~= seq![
                PartView { text: "On NetBSD,"@, color: Role::Text },
                PartView { text: "/usr/pkg/etc"@, color: Role::Accent },
                PartView { text: "is also protected by default."@, color: Role::Text },
            ]);
            append_block(doc, ManualBlock::ManualParagraph(parts));
        },
        _ => {},
    }
    let parts = vec![
        ManualPart { text: "When", color: Role::Text },
        ManualPart { text: "HOME", color: Role::Emphasis },
        ManualPart { text: "is available, Nightkrawler also protects", color: Role::Text },
        ManualPart { text: "~/.ssh, ~/.gnupg,", color: Role::Accent },
        ManualPart { text: "and", color: Role::Text },
        ManualPart { text: "~/.config.", color: Role::Accent },
    ];
    assert(parts_view(parts@) =~= seq![
        PartView { text: "When"@, color: Role::Text },
        PartView { text: "HOME"@, color: Role::Emphasis },
        PartView { text: "is available, Nightkrawler also protects"@, color: Role::Text },
        PartView { text: "~/.ssh, ~/.gnupg,"@, color: Role::Accent },
        PartView { text: "and"@, color: Role::Text },
        PartView { text: "~/.config."@, color: Role::Accent },
    ]);
    append_block(doc, ManualBlock::ManualParagraph(parts));
    let parts = vec![
        ManualPart { text: "Additional protected trees may be supplied with", color: Role::Text },
        ManualPart { text: "--protect", color: Role::Emphasis },
        ManualPart { text: "or", color: Role::Text },
        ManualPart { text: "-P.", color: Role::Emphasis },
    ];
    assert(parts_view(parts@) =~= seq![
        PartView { text: "Additional protected trees may be supplied with"@, color: Role::Text },
        PartView { text: "--protect"@, color: Role::Emphasis },
        PartView { text: "or"@, color: Role::Text },
        PartView { text: "-P."@, color: Role::Emphasis },
    ]);
    append_block(doc, ManualBlock::ManualParagraph(parts));
    let parts = vec![
        ManualPart { text: "If any file in a duplicate group belongs to a more restrictive classification, the group is reported using that classification.", color: Role::Text },
    ];
    assert(parts_view(parts@) =~= seq![
        PartView { text: "If any file in a duplicate group belongs to a more restrictive classification, the group is reported using that classification."@, color: Role::Text },
    ]);
    append_block(doc, ManualBlock::ManualParagraph(parts));
    assert(blocks_view(doc@) =~= start + manual_blocks_5(os));
}

#[verifier::spinoff_prover]
fn manual_document_part_6(doc: &mut Vec<ManualBlock>, os: TargetOs)
    requires
        descriptions_fit(blocks_view(old(doc)@)),
    ensures
        descriptions_fit(blocks_view(final(doc)@)),
        blocks_view(final(doc)@) == blocks_view(old(doc)@) + manual_blocks_6(os),
{
    let ghost start = blocks_view(doc@);
    let parts = vec![
        ManualPart { text: "For a shorter explanation focused only on classification, use", color: Role::Text },
        ManualPart { text: "--classification-help.", color: Role::Emphasis },
    ];
    assert(parts_view(parts@) =~= seq![
        PartView { text: "For a shorter explanation focused only on classification, use"@, color: Role::Text },
        PartView { text: "--classification-help."@, color: Role::Emphasis },
    ]);
    append_block(doc, ManualBlock::ManualParagraph(parts));
    append_block(doc, ManualBlock::Section("Keeper Selection"));
    let parts = vec![
        ManualPart { text: "Every duplicate group contains one file selected as the keeper. The remaining matching files become removable candidates.", color: Role::Text },
    ];
    assert(parts_view(parts@) =~= seq![
        PartView { text: "Every duplicate group contains one file selected as the keeper. The remaining matching files become removable candidates."@, color: Role::Text },
    ]);
    append_block(doc, ManualBlock::ManualParagraph(parts));
    let parts = vec![
        ManualPart { text: "Keeper selection never means that Nightkrawler considers the other files different. All members of the group have already been verified as identical by content.", color: Role::Text },
    ];
    assert(parts_view(parts@) =~= seq![
        PartView { text: "Keeper selection never means that Nightkrawler considers the other files different. All members of the group have already been verified as identical by content."@, color: Role::Text },
    ]);
    append_block(doc, ManualBlock::ManualParagraph(parts));
    let parts = vec![
        ManualPart { text: "The default keeper policy uses deterministic path-based ordering. Files under locations commonly associated with temporary or replaceable content are less preferred than ordinary locations.", color: Role::Text },
    ];
    assert(parts_view(parts@) =~= seq![
        PartView { text: "The default keeper policy uses deterministic path-based ordering. Files under locations commonly associated with temporary or replaceable content are less preferred than ordinary locations."@, color: Role::Text },
    ]);
    append_block(doc, ManualBlock::Subsection("Default policy", parts));
    let parts = vec![
        ManualPart { text: "Examples of less-preferred locations include", color: Role::Text },
        ManualPart { text: "Downloads, .cache, .cargo, .gradle,", color: Role::Accent },
        ManualPart { text: "and", color: Role::Text },
        ManualPart { text: ".local/share.", color: Role::Accent },
    ];
    assert(parts_view(parts@) =~= seq![
        PartView { text: "Examples of less-preferred locations include"@, color: Role::Text },
        PartView { text: "Downloads, .cache, .cargo, .gradle,"@, color: Role::Accent },
        PartView { text: "and"@, color: Role::Text },
        PartView { text: ".local/share."@, color: Role::Accent },
    ]);
    append_block(doc, ManualBlock::ManualParagraph(parts));
    let parts = vec![
        ManualPart { text: "When candidates remain tied, Nightkrawler uses path depth and pathname ordering to make the final choice reproducible.", color: Role::Text },
    ];
    assert(parts_view(parts@) =~= seq![
        PartView { text: "When candidates remain tied, Nightkrawler uses path depth and pathname ordering to make the final choice reproducible."@, color: Role::Text },
    ]);
    append_block(doc, ManualBlock::ManualParagraph(parts));
    let parts = vec![
        ManualPart { text: "Use", color: Role::Text },
        ManualPart { text: "--prefer", color: Role::Emphasis },
        ManualPart { text: "or", color: Role::Text },
        ManualPart { text: "-p", color: Role::Emphasis },
        ManualPart { text: "to give one or more directory trees explicit keeper priority.", color: Role::Text },
    ];
    assert(parts_view(parts@) =~= seq![
        PartView { text: "Use"@, color: Role::Text },
        PartView { text: "--prefer"@, color: Role::Emphasis },
        PartView { text: "or"@, color: Role::Text },
        PartView { text: "-p"@, color: Role::Emphasis },
        PartView { text: "to give one or more directory trees explicit keeper priority."@, color: Role::Text },
    ]);
    append_block(doc, ManualBlock::Subsection("--prefer", parts));
    assert(blocks_view(doc@) =~= start + manual_blocks_6(os));
}

#[verifier::spinoff_prover]
fn manual_document_part_7(doc: &mut Vec<ManualBlock>, os: TargetOs)
    requires
        descriptions_fit(blocks_view(old(doc)@)),
    ensures
        descriptions_fit(blocks_view(final(doc)@)),
        blocks_view(final(doc)@) == blocks_view(old(doc)@) + manual_blocks_7(os),
{
    let ghost start = blocks_view(doc@);
    let parts = vec![
        ManualPart { text: "Preferred paths are ordered. The first path has the highest priority, followed by the second, and so on.", color: Role::Text },
    ];
    assert(parts_view(parts@) =~= seq![
        PartView { text: "Preferred paths are ordered. The first path has the highest priority, followed by the second, and so on."@, color: Role::Text },
    ]);
    append_block(doc, ManualBlock::ManualParagraph(parts));
    let parts = vec![
        ManualPart { text: "nk ~ -R --min-size 100M --prefer ~/DevX ~/Documents", color: Role::Example },
    ];
    assert(parts_view(parts@) =~= seq![
        PartView { text: "nk ~ -R --min-size 100M --prefer ~/DevX ~/Documents"@, color: Role::Example },
    ]);
    append_block(doc, ManualBlock::Paragraph(parts, 4));
    append_block(doc, ManualBlock::Blank);
    let parts = vec![
        ManualPart { text: "In this example, a matching file under", color: Role::Text },
        ManualPart { text: "~/DevX", color: Role::Accent },
        ManualPart { text: "is preferred first. A matching file under", color: Role::Text },
        ManualPart { text: "~/Documents", color: Role::Accent },
        ManualPart { text: "has the next priority.", color: Role::Text },
    ];
    assert(parts_view(parts@) =~= seq![
        PartView { text: "In this example, a matching file under"@, color: Role::Text },
        PartView { text: "~/DevX"@, color: Role::Accent },
        PartView { text: "is preferred first. A matching file under"@, color: Role::Text },
        PartView { text: "~/Documents"@, color: Role::Accent },
        PartView { text: "has the next priority."@, color: Role::Text },
    ]);
    append_block(doc, ManualBlock::ManualParagraph(parts));
    let parts = vec![
        ManualPart { text: "The", color: Role::Text },
        ManualPart { text: "--keep-highest-version", color: Role::Emphasis },
        ManualPart { text: "policy searches pathname components for version-like values such as", color: Role::Text },
        ManualPart { text: "1.2, 2.0.1,", color: Role::Accent },
        ManualPart { text: "or", color: Role::Text },
        ManualPart { text: "v3.4.", color: Role::Accent },
    ];
    assert(parts_view(parts@) =~= seq![
        PartView { text: "The"@, color: Role::Text },
        PartView { text: "--keep-highest-version"@, color: Role::Emphasis },
        PartView { text: "policy searches pathname components for version-like values such as"@, color: Role::Text },
        PartView { text: "1.2, 2.0.1,"@, color: Role::Accent },
        PartView { text: "or"@, color: Role::Text },
        PartView { text: "v3.4."@, color: Role::Accent },
    ]);
    append_block(doc, ManualBlock::Subsection("--keep-highest-version", parts));
    let parts = vec![
        ManualPart { text: "When version-like candidates are available, Nightkrawler prefers the file associated with the highest detected version. Other keeper rules are used to break ties or when no usable version is found.", color: Role::Text },
    ];
    assert(parts_view(parts@) =~= seq![
        PartView { text: "When version-like candidates are available, Nightkrawler prefers the file associated with the highest detected version. Other keeper rules are used to break ties or when no usable version is found."@, color: Role::Text },
    ]);
    append_block(doc, ManualBlock::ManualParagraph(parts));
    let parts = vec![
        ManualPart { text: "Explicit", color: Role::Text },
        ManualPart { text: "--prefer", color: Role::Emphasis },
        ManualPart { text: "paths take priority before the selected keeper policy is applied.", color: Role::Text },
    ];
    assert(parts_view(parts@) =~= seq![
        PartView { text: "Explicit"@, color: Role::Text },
        PartView { text: "--prefer"@, color: Role::Emphasis },
        PartView { text: "paths take priority before the selected keeper policy is applied."@, color: Role::Text },
    ]);
    append_block(doc, ManualBlock::ManualParagraph(parts));
    append_block(doc, ManualBlock::Section("Protection"));
    assert(blocks_view(doc@) =~= start + manual_blocks_7(os));
}

#[verifier::spinoff_prover]
fn manual_document_part_8(doc: &mut Vec<ManualBlock>, os: TargetOs)
    requires
        descriptions_fit(blocks_view(old(doc)@)),
    ensures
        descriptions_fit(blocks_view(final(doc)@)),
        blocks_view(final(doc)@) == blocks_view(old(doc)@) + manual_blocks_8(os),
{
    let ghost start = blocks_view(doc@);
    let parts = vec![
        ManualPart { text: "Protection is separate from exclusion. An excluded path is not scanned. A protected path may still be scanned and reported, but action modes are prevented from operating on protected candidates unless explicit permission is given.", color: Role::Text },
    ];
    assert(parts_view(parts@) =~= seq![
        PartView { text: "Protection is separate from exclusion. An excluded path is not scanned. A protected path may still be scanned and reported, but action modes are prevented from operating on protected candidates unless explicit permission is given."@, color: Role::Text },
    ]);
    append_block(doc, ManualBlock::ManualParagraph(parts));
    let parts = vec![
        ManualPart { text: "Use", color: Role::Text },
        ManualPart { text: "--protect", color: Role::Emphasis },
        ManualPart { text: "or", color: Role::Text },
        ManualPart { text: "-P", color: Role::Emphasis },
        ManualPart { text: "to add one or more protected path trees for the current command.", color: Role::Text },
    ];
    assert(parts_view(parts@) =~= seq![
        PartView { text: "Use"@, color: Role::Text },
        PartView { text: "--protect"@, color: Role::Emphasis },
        PartView { text: "or"@, color: Role::Text },
        PartView { text: "-P"@, color: Role::Emphasis },
        PartView { text: "to add one or more protected path trees for the current command."@, color: Role::Text },
    ]);
    append_block(doc, ManualBlock::ManualParagraph(parts));
    let parts = vec![
        ManualPart { text: "nk ~ -R --min-size 100M --protect ~/.sensitive", color: Role::Example },
    ];
    assert(parts_view(parts@) =~= seq![
        PartView { text: "nk ~ -R --min-size 100M --protect ~/.sensitive"@, color: Role::Example },
    ]);
    append_block(doc, ManualBlock::Paragraph(parts, 4));
    append_block(doc, ManualBlock::Blank);
    let parts = vec![
        ManualPart { text: "The protected tree remains visible to classification and reporting. Protection becomes decisive when", color: Role::Text },
        ManualPart { text: "--quarantine, --trash,", color: Role::Emphasis },
        ManualPart { text: "or", color: Role::Text },
        ManualPart { text: "--delete", color: Role::Emphasis },
        ManualPart { text: "would act on a protected removable candidate.", color: Role::Text },
    ];
    assert(parts_view(parts@) =~= seq![
        PartView { text: "The protected tree remains visible to classification and reporting. Protection becomes decisive when"@, color: Role::Text },
        PartView { text: "--quarantine, --trash,"@, color: Role::Emphasis },
        PartView { text: "or"@, color: Role::Text },
        PartView { text: "--delete"@, color: Role::Emphasis },
        PartView { text: "would act on a protected removable candidate."@, color: Role::Text },
    ]);
    append_block(doc, ManualBlock::ManualParagraph(parts));
    let parts = vec![
        ManualPart { text: "If a protected removable candidate is found during an action mode, Nightkrawler performs a safety stop unless", color: Role::Text },
        ManualPart { text: "--allow-protected", color: Role::Emphasis },
        ManualPart { text: "was supplied.", color: Role::Text },
    ];
    assert(parts_view(parts@) =~= seq![
        PartView { text: "If a protected removable candidate is found during an action mode, Nightkrawler performs a safety stop unless"@, color: Role::Text },
        PartView { text: "--allow-protected"@, color: Role::Emphasis },
        PartView { text: "was supplied."@, color: Role::Text },
    ]);
    append_block(doc, ManualBlock::ManualParagraph(parts));
    let parts = vec![
        ManualPart { text: "The safety stop identifies the protected candidate, the matching protected root, and the scan path. Original files are not changed by the refused action.", color: Role::Text },
    ];
    assert(parts_view(parts@) =~= seq![
        PartView { text: "The safety stop identifies the protected candidate, the matching protected root, and the scan path. Original files are not changed by the refused action."@, color: Role::Text },
    ]);
    append_block(doc, ManualBlock::ManualParagraph(parts));
    let parts = vec![
        ManualPart { text: "--allow-protected", color: Role::Emphasis },
        ManualPart { text: "is therefore an explicit override. It should be used only when action on the protected candidates is intentional.", color: Role::Text },
    ];
    assert(parts_view(parts@) =~= seq![
        PartView { text: "--allow-protected"@, color: Role::Emphasis },
        PartView { text: "is therefore an explicit override. It should be used only when action on the protected candidates is intentional."@, color: Role::Text },
    ]);
    append_block(doc, ManualBlock::ManualParagraph(parts));
    assert(blocks_view(doc@) =~= start + manual_blocks_8(os));
}

#[verifier::spinoff_prover]
fn manual_document_part_9(doc: &mut Vec<ManualBlock>, os: TargetOs)
    requires
        descriptions_fit(blocks_view(old(doc)@)),
    ensures
        descriptions_fit(blocks_view(final(doc)@)),
        blocks_view(final(doc)@) == blocks_view(old(doc)@) + manual_blocks_9(os),
{
    let ghost start = blocks_view(doc@);
    let parts = vec![
        ManualPart { text: "For ordinary report-only inspection,", color: Role::Text },
        ManualPart { text: "--protect", color: Role::Emphasis },
        ManualPart { text: "is still useful because the classification and generated report will identify matching groups as protected.", color: Role::Text },
    ];
    assert(parts_view(parts@) =~= seq![
        PartView { text: "For ordinary report-only inspection,"@, color: Role::Text },
        PartView { text: "--protect"@, color: Role::Emphasis },
        PartView { text: "is still useful because the classification and generated report will identify matching groups as protected."@, color: Role::Text },
    ]);
    append_block(doc, ManualBlock::ManualParagraph(parts));
    append_block(doc, ManualBlock::Section("Action Modes"));
    let parts = vec![
        ManualPart { text: "Nightkrawler has three action modes:", color: Role::Text },
        ManualPart { text: "--quarantine, --trash,", color: Role::Emphasis },
        ManualPart { text: "and", color: Role::Text },
        ManualPart { text: "--delete.", color: Role::Emphasis },
        ManualPart { text: "Without an action mode, a scan is report-only.", color: Role::Text },
    ];
    assert(parts_view(parts@) =~= seq![
        PartView { text: "Nightkrawler has three action modes:"@, color: Role::Text },
        PartView { text: "--quarantine, --trash,"@, color: Role::Emphasis },
        PartView { text: "and"@, color: Role::Text },
        PartView { text: "--delete."@, color: Role::Emphasis },
        PartView { text: "Without an action mode, a scan is report-only."@, color: Role::Text },
    ]);
    append_block(doc, ManualBlock::ManualParagraph(parts));
    let parts = vec![
        ManualPart { text: "Copies removable duplicates into a quarantine directory while leaving the original files in place.", color: Role::Text },
    ];
    assert(parts_view(parts@) =~= seq![
        PartView { text: "Copies removable duplicates into a quarantine directory while leaving the original files in place."@, color: Role::Text },
    ]);
    append_block(doc, ManualBlock::Subsection("--quarantine", parts));
    let parts = vec![
        ManualPart { text: "Moves removable duplicates to the system Trash implementation.", color: Role::Text },
    ];
    assert(parts_view(parts@) =~= seq![
        PartView { text: "Moves removable duplicates to the system Trash implementation."@, color: Role::Text },
    ]);
    append_block(doc, ManualBlock::Subsection("--trash", parts));
    let parts = vec![
        ManualPart { text: "Permanently removes removable duplicate files from their original locations.", color: Role::Text },
    ];
    assert(parts_view(parts@) =~= seq![
        PartView { text: "Permanently removes removable duplicate files from their original locations."@, color: Role::Text },
    ]);
    append_block(doc, ManualBlock::Subsection("--delete", parts));
    let parts = vec![
        ManualPart { text: "--trash", color: Role::Emphasis },
        ManualPart { text: "and", color: Role::Text },
        ManualPart { text: "--delete", color: Role::Emphasis },
        ManualPart { text: "are mutually exclusive. Choose one destructive action for a scan.", color: Role::Text },
    ];
    assert(parts_view(parts@) =~= seq![
        PartView { text: "--trash"@, color: Role::Emphasis },
        PartView { text: "and"@, color: Role::Text },
        PartView { text: "--delete"@, color: Role::Emphasis },
        PartView { text: "are mutually exclusive. Choose one destructive action for a scan."@, color: Role::Text },
    ]);
    append_block(doc, ManualBlock::ManualParagraph(parts));
    let parts = vec![
        ManualPart { text: "--quarantine", color: Role::Emphasis },
        ManualPart { text: "may be combined with either", color: Role::Text },
        ManualPart { text: "--trash", color: Role::Emphasis },
        ManualPart { text: "or", color: Role::Text },
        ManualPart { text: "--delete.", color: Role::Emphasis },
        ManualPart { text: "In that workflow, Nightkrawler creates the quarantine copies before changing the originals.", color: Role::Text },
    ];
    assert(parts_view(parts@) =~= seq![
        PartView { text: "--quarantine"@, color: Role::Emphasis },
        PartView { text: "may be combined with either"@, color: Role::Text },
        PartView { text: "--trash"@, color: Role::Emphasis },
        PartView { text: "or"@, color: Role::Text },
        PartView { text: "--delete."@, color: Role::Emphasis },
        PartView { text: "In that workflow, Nightkrawler creates the quarantine copies before changing the originals."@, color: Role::Text },
    ]);
    append_block(doc, ManualBlock::ManualParagraph(parts));
    assert(blocks_view(doc@) =~= start + manual_blocks_9(os));
}

#[verifier::spinoff_prover]
fn manual_document_part_10(doc: &mut Vec<ManualBlock>, os: TargetOs)
    requires
        descriptions_fit(blocks_view(old(doc)@)),
    ensures
        descriptions_fit(blocks_view(final(doc)@)),
        blocks_view(final(doc)@) == blocks_view(old(doc)@) + manual_blocks_10(os),
{
    let ghost start = blocks_view(doc@);
    let parts = vec![
        ManualPart { text: "--interactive", color: Role::Emphasis },
        ManualPart { text: "may be used with", color: Role::Text },
        ManualPart { text: "--trash", color: Role::Emphasis },
        ManualPart { text: "or", color: Role::Text },
        ManualPart { text: "--delete", color: Role::Emphasis },
        ManualPart { text: "to ask before each destructive action. It does not make quarantine copying interactive.", color: Role::Text },
    ];
    assert(parts_view(parts@) =~= seq![
        PartView { text: "--interactive"@, color: Role::Emphasis },
        PartView { text: "may be used with"@, color: Role::Text },
        PartView { text: "--trash"@, color: Role::Emphasis },
        PartView { text: "or"@, color: Role::Text },
        PartView { text: "--delete"@, color: Role::Emphasis },
        PartView { text: "to ask before each destructive action. It does not make quarantine copying interactive."@, color: Role::Text },
    ]);
    append_block(doc, ManualBlock::ManualParagraph(parts));
    append_block(doc, ManualBlock::Section("Quarantine"));
    let parts = vec![
        ManualPart { text: "Quarantine is Nightkrawler's recoverable copy stage. Use", color: Role::Text },
        ManualPart { text: "--quarantine", color: Role::Emphasis },
        ManualPart { text: "or", color: Role::Text },
        ManualPart { text: "-q", color: Role::Emphasis },
        ManualPart { text: "followed by the directory where removable duplicate copies should be stored.", color: Role::Text },
    ];
    assert(parts_view(parts@) =~= seq![
        PartView { text: "Quarantine is Nightkrawler's recoverable copy stage. Use"@, color: Role::Text },
        PartView { text: "--quarantine"@, color: Role::Emphasis },
        PartView { text: "or"@, color: Role::Text },
        PartView { text: "-q"@, color: Role::Emphasis },
        PartView { text: "followed by the directory where removable duplicate copies should be stored."@, color: Role::Text },
    ]);
    append_block(doc, ManualBlock::ManualParagraph(parts));
    let parts = vec![
        ManualPart { text: "nk ~/Downloads -R --min-size 100M -q ~/nk-quarantine", color: Role::Example },
    ];
    assert(parts_view(parts@) =~= seq![
        PartView { text: "nk ~/Downloads -R --min-size 100M -q ~/nk-quarantine"@, color: Role::Example },
    ]);
    append_block(doc, ManualBlock::Paragraph(parts, 4));
    append_block(doc, ManualBlock::Blank);
    let parts = vec![
        ManualPart { text: "Nightkrawler preserves the scanned path structure below the quarantine directory where possible. If a destination name already exists, a unique Nightkrawler suffix is added rather than overwriting the existing quarantine file.", color: Role::Text },
    ];
    assert(parts_view(parts@) =~= seq![
        PartView { text: "Nightkrawler preserves the scanned path structure below the quarantine directory where possible. If a destination name already exists, a unique Nightkrawler suffix is added rather than overwriting the existing quarantine file."@, color: Role::Text },
    ]);
    append_block(doc, ManualBlock::ManualParagraph(parts));
    let parts = vec![
        ManualPart { text: "Before copying begins, Nightkrawler calculates the total size of the removable duplicates and checks the available free space on the filesystem containing the quarantine directory.", color: Role::Text },
    ];
    assert(parts_view(parts@) =~= seq![
        PartView { text: "Before copying begins, Nightkrawler calculates the total size of the removable duplicates and checks the available free space on the filesystem containing the quarantine directory."@, color: Role::Text },
    ]);
    append_block(doc, ManualBlock::ManualParagraph(parts));
    let parts = vec![
        ManualPart { text: "If there is not enough free space, quarantine is refused before files are copied.", color: Role::Text },
    ];
    assert(parts_view(parts@) =~= seq![
        PartView { text: "If there is not enough free space, quarantine is refused before files are copied."@, color: Role::Text },
    ]);
    append_block(doc, ManualBlock::ManualParagraph(parts));
    assert(blocks_view(doc@) =~= start + manual_blocks_10(os));
}

#[verifier::spinoff_prover]
fn manual_document_part_11(doc: &mut Vec<ManualBlock>, os: TargetOs)
    requires
        descriptions_fit(blocks_view(old(doc)@)),
    ensures
        descriptions_fit(blocks_view(final(doc)@)),
        blocks_view(final(doc)@) == blocks_view(old(doc)@) + manual_blocks_11(os),
{
    let ghost start = blocks_view(doc@);
    let parts = vec![
        ManualPart { text: "A quarantine manifest records the original path, quarantine path, and size of each copied file. The current manifest format stores Unix pathnames as their original bytes rather than relying on tab- or newline-separated text fields.", color: Role::Text },
    ];
    assert(parts_view(parts@) =~= seq![
        PartView { text: "A quarantine manifest records the original path, quarantine path, and size of each copied file. The current manifest format stores Unix pathnames as their original bytes rather than relying on tab- or newline-separated text fields."@, color: Role::Text },
    ]);
    append_block(doc, ManualBlock::ManualParagraph(parts));
    let parts = vec![
        ManualPart { text: "This allows valid Unix filenames containing tabs, newlines, spaces, or non-UTF-8 pathname bytes to be represented without using those characters as field separators.", color: Role::Text },
    ];
    assert(parts_view(parts@) =~= seq![
        PartView { text: "This allows valid Unix filenames containing tabs, newlines, spaces, or non-UTF-8 pathname bytes to be represented without using those characters as field separators."@, color: Role::Text },
    ]);
    append_block(doc, ManualBlock::ManualParagraph(parts));
    let parts = vec![
        ManualPart { text: "When quarantine is combined with", color: Role::Text },
        ManualPart { text: "--trash", color: Role::Emphasis },
        ManualPart { text: "or", color: Role::Text },
        ManualPart { text: "--delete,", color: Role::Emphasis },
        ManualPart { text: "the destructive stage is allowed to proceed only if all intended quarantine copies completed successfully.", color: Role::Text },
    ];
    assert(parts_view(parts@) =~= seq![
        PartView { text: "When quarantine is combined with"@, color: Role::Text },
        PartView { text: "--trash"@, color: Role::Emphasis },
        PartView { text: "or"@, color: Role::Text },
        PartView { text: "--delete,"@, color: Role::Emphasis },
        PartView { text: "the destructive stage is allowed to proceed only if all intended quarantine copies completed successfully."@, color: Role::Text },
    ]);
    append_block(doc, ManualBlock::ManualParagraph(parts));
    let parts = vec![
        ManualPart { text: "If quarantine copying fails or is incomplete, Nightkrawler performs a safety stop and refuses the Trash or delete stage. Original files are left unchanged by the refused destructive action.", color: Role::Text },
    ];
    assert(parts_view(parts@) =~= seq![
        PartView { text: "If quarantine copying fails or is incomplete, Nightkrawler performs a safety stop and refuses the Trash or delete stage. Original files are left unchanged by the refused destructive action."@, color: Role::Text },
    ]);
    append_block(doc, ManualBlock::ManualParagraph(parts));
    append_block(doc, ManualBlock::Section("Restore and Cleanup"));
    let parts = vec![
        ManualPart { text: "Restores files recorded in a Nightkrawler quarantine manifest to their original paths.", color: Role::Text },
    ];
    assert(parts_view(parts@) =~= seq![
        PartView { text: "Restores files recorded in a Nightkrawler quarantine manifest to their original paths."@, color: Role::Text },
    ]);
    append_block(doc, ManualBlock::Subsection("--restore", parts));
    let parts = vec![
        ManualPart { text: "nk --restore ~/nk-quarantine", color: Role::Example },
    ];
    assert(parts_view(parts@) =~= seq![
        PartView { text: "nk --restore ~/nk-quarantine"@, color: Role::Example },
    ]);
    append_block(doc, ManualBlock::Paragraph(parts, 4));
    append_block(doc, ManualBlock::Blank);
    assert(blocks_view(doc@) =~= start + manual_blocks_11(os));
}

#[verifier::spinoff_prover]
fn manual_document_part_12(doc: &mut Vec<ManualBlock>, os: TargetOs)
    requires
        descriptions_fit(blocks_view(old(doc)@)),
    ensures
        descriptions_fit(blocks_view(final(doc)@)),
        blocks_view(final(doc)@) == blocks_view(old(doc)@) + manual_blocks_12(os),
{
    let ghost start = blocks_view(doc@);
    let parts = vec![
        ManualPart { text: "The short form", color: Role::Text },
        ManualPart { text: "-u", color: Role::Emphasis },
        ManualPart { text: "may be used instead of", color: Role::Text },
        ManualPart { text: "--restore.", color: Role::Emphasis },
    ];
    assert(parts_view(parts@) =~= seq![
        PartView { text: "The short form"@, color: Role::Text },
        PartView { text: "-u"@, color: Role::Emphasis },
        PartView { text: "may be used instead of"@, color: Role::Text },
        PartView { text: "--restore."@, color: Role::Emphasis },
    ]);
    append_block(doc, ManualBlock::ManualParagraph(parts));
    let parts = vec![
        ManualPart { text: "If the original path already exists, that record is skipped rather than overwritten.", color: Role::Text },
    ];
    assert(parts_view(parts@) =~= seq![
        PartView { text: "If the original path already exists, that record is skipped rather than overwritten."@, color: Role::Text },
    ]);
    append_block(doc, ManualBlock::ManualParagraph(parts));
    let parts = vec![
        ManualPart { text: "If the original parent directory no longer exists, Nightkrawler recreates the required directory path before restoring the file.", color: Role::Text },
    ];
    assert(parts_view(parts@) =~= seq![
        PartView { text: "If the original parent directory no longer exists, Nightkrawler recreates the required directory path before restoring the file."@, color: Role::Text },
    ]);
    append_block(doc, ManualBlock::ManualParagraph(parts));
    let parts = vec![
        ManualPart { text: "Restore copies files back to their original locations. The quarantine remains available until it is cleaned separately.", color: Role::Text },
    ];
    assert(parts_view(parts@) =~= seq![
        PartView { text: "Restore copies files back to their original locations. The quarantine remains available until it is cleaned separately."@, color: Role::Text },
    ]);
    append_block(doc, ManualBlock::ManualParagraph(parts));
    let parts = vec![
        ManualPart { text: "Removes a recognized Nightkrawler quarantine directory after it is no longer needed.", color: Role::Text },
    ];
    assert(parts_view(parts@) =~= seq![
        PartView { text: "Removes a recognized Nightkrawler quarantine directory after it is no longer needed."@, color: Role::Text },
    ]);
    append_block(doc, ManualBlock::Subsection("--cleanup", parts));
    let parts = vec![
        ManualPart { text: "nk --cleanup ~/nk-quarantine", color: Role::Example },
    ];
    assert(parts_view(parts@) =~= seq![
        PartView { text: "nk --cleanup ~/nk-quarantine"@, color: Role::Example },
    ]);
    append_block(doc, ManualBlock::Paragraph(parts, 4));
    append_block(doc, ManualBlock::Blank);
    let parts = vec![
        ManualPart { text: "The short form", color: Role::Text },
        ManualPart { text: "-c", color: Role::Emphasis },
        ManualPart { text: "may be used instead of", color: Role::Text },
        ManualPart { text: "--cleanup.", color: Role::Emphasis },
    ];
    assert(parts_view(parts@) =~= seq![
        PartView { text: "The short form"@, color: Role::Text },
        PartView { text: "-c"@, color: Role::Emphasis },
        PartView { text: "may be used instead of"@, color: Role::Text },
        PartView { text: "--cleanup."@, color: Role::Emphasis },
    ]);
    append_block(doc, ManualBlock::ManualParagraph(parts));
    assert(blocks_view(doc@) =~= start + manual_blocks_12(os));
}

#[verifier::spinoff_prover]
fn manual_document_part_13(doc: &mut Vec<ManualBlock>, os: TargetOs)
    requires
        descriptions_fit(blocks_view(old(doc)@)),
    ensures
        descriptions_fit(blocks_view(final(doc)@)),
        blocks_view(final(doc)@) == blocks_view(old(doc)@) + manual_blocks_13(os),
{
    let ghost start = blocks_view(doc@);
    let parts = vec![
        ManualPart { text: "Cleanup is deliberately guarded against dangerous targets. Nightkrawler refuses to clean the filesystem root, the user's home directory, or the current working directory.", color: Role::Text },
    ];
    assert(parts_view(parts@) =~= seq![
        PartView { text: "Cleanup is deliberately guarded against dangerous targets. Nightkrawler refuses to clean the filesystem root, the user's home directory, or the current working directory."@, color: Role::Text },
    ]);
    append_block(doc, ManualBlock::ManualParagraph(parts));
    let parts = vec![
        ManualPart { text: "A missing or empty quarantine is treated as having nothing to clean rather than as a destructive cleanup operation.", color: Role::Text },
    ];
    assert(parts_view(parts@) =~= seq![
        PartView { text: "A missing or empty quarantine is treated as having nothing to clean rather than as a destructive cleanup operation."@, color: Role::Text },
    ]);
    append_block(doc, ManualBlock::ManualParagraph(parts));
    let parts = vec![
        ManualPart { text: "Before removing a populated directory, cleanup verifies that the directory contains a recognized Nightkrawler quarantine manifest.", color: Role::Text },
    ];
    assert(parts_view(parts@) =~= seq![
        PartView { text: "Before removing a populated directory, cleanup verifies that the directory contains a recognized Nightkrawler quarantine manifest."@, color: Role::Text },
    ]);
    append_block(doc, ManualBlock::ManualParagraph(parts));
    append_block(doc, ManualBlock::Section("Reports"));
    let parts = vec![
        ManualPart { text: "When duplicate groups are found, Nightkrawler writes a detailed text report after processing the scan.", color: Role::Text },
    ];
    assert(parts_view(parts@) =~= seq![
        PartView { text: "When duplicate groups are found, Nightkrawler writes a detailed text report after processing the scan."@, color: Role::Text },
    ]);
    append_block(doc, ManualBlock::ManualParagraph(parts));
    let parts = vec![
        ManualPart { text: "Without", color: Role::Text },
        ManualPart { text: "--report", color: Role::Emphasis },
        ManualPart { text: "or", color: Role::Text },
        ManualPart { text: "-r,", color: Role::Emphasis },
        ManualPart { text: "the report is created in the current directory with an automatically generated filename.", color: Role::Text },
    ];
    assert(parts_view(parts@) =~= seq![
        PartView { text: "Without"@, color: Role::Text },
        PartView { text: "--report"@, color: Role::Emphasis },
        PartView { text: "or"@, color: Role::Text },
        PartView { text: "-r,"@, color: Role::Emphasis },
        PartView { text: "the report is created in the current directory with an automatically generated filename."@, color: Role::Text },
    ]);
    append_block(doc, ManualBlock::ManualParagraph(parts));
    let parts = vec![
        ManualPart { text: "If", color: Role::Text },
        ManualPart { text: "--report", color: Role::Emphasis },
        ManualPart { text: "points to an existing directory, Nightkrawler places an automatically named report inside that directory. Otherwise, the supplied path is used as the report filename.", color: Role::Text },
    ];
    assert(parts_view(parts@) =~= seq![
        PartView { text: "If"@, color: Role::Text },
        PartView { text: "--report"@, color: Role::Emphasis },
        PartView { text: "points to an existing directory, Nightkrawler places an automatically named report inside that directory. Otherwise, the supplied path is used as the report filename."@, color: Role::Text },
    ]);
    append_block(doc, ManualBlock::ManualParagraph(parts));
    let parts = vec![
        ManualPart { text: "Reports include scan date, operating system, architecture, hostname, scan duration, scan root, minimum size, recursive state, action mode, keeper policy, excluded paths, protected paths, duplicate groups, keeper paths, removable candidates, and reclaimable space.", color: Role::Text },
    ];
    assert(parts_view(parts@) =~= seq![
        PartView { text: "Reports include scan date, operating system, architecture, hostname, scan duration, scan root, minimum size, recursive state, action mode, keeper policy, excluded paths, protected paths, duplicate groups, keeper paths, removable candidates, and reclaimable space."@, color: Role::Text },
    ]);
    append_block(doc, ManualBlock::ManualParagraph(parts));
    assert(blocks_view(doc@) =~= start + manual_blocks_13(os));
}

#[verifier::spinoff_prover]
fn manual_document_part_14(doc: &mut Vec<ManualBlock>, os: TargetOs)
    requires
        descriptions_fit(blocks_view(old(doc)@)),
    ensures
        descriptions_fit(blocks_view(final(doc)@)),
        blocks_view(final(doc)@) == blocks_view(old(doc)@) + manual_blocks_14(os),
{
    let ghost start = blocks_view(doc@);
    let parts = vec![
        ManualPart { text: "Duplicate groups are divided into", color: Role::Text },
        ManualPart { text: "Protected, Generated,", color: Role::Accent },
        ManualPart { text: "and", color: Role::Text },
        ManualPart { text: "Ordinary", color: Role::Accent },
        ManualPart { text: "sections when those classifications are present.", color: Role::Text },
    ];
    assert(parts_view(parts@) =~= seq![
        PartView { text: "Duplicate groups are divided into"@, color: Role::Text },
        PartView { text: "Protected, Generated,"@, color: Role::Accent },
        PartView { text: "and"@, color: Role::Text },
        PartView { text: "Ordinary"@, color: Role::Accent },
        PartView { text: "sections when those classifications are present."@, color: Role::Text },
    ]);
    append_block(doc, ManualBlock::ManualParagraph(parts));
    let parts = vec![
        ManualPart { text: "When quarantine was used, the report also records the number of copied files and the quarantine location.", color: Role::Text },
    ];
    assert(parts_view(parts@) =~= seq![
        PartView { text: "When quarantine was used, the report also records the number of copied files and the quarantine location."@, color: Role::Text },
    ]);
    append_block(doc, ManualBlock::ManualParagraph(parts));
    append_block(doc, ManualBlock::Section("Safety"));
    let parts = vec![
        ManualPart { text: "Nightkrawler is designed so that inspection and action remain separate. A normal scan reports duplicate candidates without changing files.", color: Role::Text },
    ];
    assert(parts_view(parts@) =~= seq![
        PartView { text: "Nightkrawler is designed so that inspection and action remain separate. A normal scan reports duplicate candidates without changing files."@, color: Role::Text },
    ]);
    append_block(doc, ManualBlock::ManualParagraph(parts));
    let parts = vec![
        ManualPart { text: "One file from every verified duplicate group is selected as the keeper. Trash and delete operate only on the remaining removable members.", color: Role::Text },
    ];
    assert(parts_view(parts@) =~= seq![
        PartView { text: "One file from every verified duplicate group is selected as the keeper. Trash and delete operate only on the remaining removable members."@, color: Role::Text },
    ]);
    append_block(doc, ManualBlock::ManualParagraph(parts));
    let parts = vec![
        ManualPart { text: "Nightkrawler does not follow symbolic links.", color: Role::Text },
    ];
    assert(parts_view(parts@) =~= seq![
        PartView { text: "Nightkrawler does not follow symbolic links."@, color: Role::Text },
    ]);
    append_block(doc, ManualBlock::ManualParagraph(parts));
    let parts = vec![
        ManualPart { text: "Dot-directories are skipped recursively unless", color: Role::Text },
        ManualPart { text: "--force-dotdirs", color: Role::Emphasis },
        ManualPart { text: "is explicitly supplied.", color: Role::Text },
    ];
    assert(parts_view(parts@) =~= seq![
        PartView { text: "Dot-directories are skipped recursively unless"@, color: Role::Text },
        PartView { text: "--force-dotdirs"@, color: Role::Emphasis },
        PartView { text: "is explicitly supplied."@, color: Role::Text },
    ]);
    append_block(doc, ManualBlock::ManualParagraph(parts));
    let parts = vec![
        ManualPart { text: "Protected removable candidates stop action modes unless", color: Role::Text },
        ManualPart { text: "--allow-protected", color: Role::Emphasis },
        ManualPart { text: "was supplied.", color: Role::Text },
    ];
    assert(parts_view(parts@) =~= seq![
        PartView { text: "Protected removable candidates stop action modes unless"@, color: Role::Text },
        PartView { text: "--allow-protected"@, color: Role::Emphasis },
        PartView { text: "was supplied."@, color: Role::Text },
    ]);
    append_block(doc, ManualBlock::ManualParagraph(parts));
    assert(blocks_view(doc@) =~= start + manual_blocks_14(os));
}

#[verifier::spinoff_prover]
fn manual_document_part_15(doc: &mut Vec<ManualBlock>, os: TargetOs)
    requires
        descriptions_fit(blocks_view(old(doc)@)),
    ensures
        descriptions_fit(blocks_view(final(doc)@)),
        blocks_view(final(doc)@) == blocks_view(old(doc)@) + manual_blocks_15(os),
{
    let ghost start = blocks_view(doc@);
    let parts = vec![
        ManualPart { text: "Quarantine checks available space before copying. When quarantine precedes Trash or delete, the destructive stage is refused unless the quarantine copy completed cleanly.", color: Role::Text },
    ];
    assert(parts_view(parts@) =~= seq![
        PartView { text: "Quarantine checks available space before copying. When quarantine precedes Trash or delete, the destructive stage is refused unless the quarantine copy completed cleanly."@, color: Role::Text },
    ]);
    append_block(doc, ManualBlock::ManualParagraph(parts));
    let parts = vec![
        ManualPart { text: "--interactive", color: Role::Emphasis },
        ManualPart { text: "offers each removable candidate individually before Trash or permanent deletion.", color: Role::Text },
    ];
    assert(parts_view(parts@) =~= seq![
        PartView { text: "--interactive"@, color: Role::Emphasis },
        PartView { text: "offers each removable candidate individually before Trash or permanent deletion."@, color: Role::Text },
    ]);
    append_block(doc, ManualBlock::ManualParagraph(parts));
    let parts = vec![
        ManualPart { text: "Restoration never overwrites an existing original path. Existing destinations are counted as skipped.", color: Role::Text },
    ];
    assert(parts_view(parts@) =~= seq![
        PartView { text: "Restoration never overwrites an existing original path. Existing destinations are counted as skipped."@, color: Role::Text },
    ]);
    append_block(doc, ManualBlock::ManualParagraph(parts));
    let parts = vec![
        ManualPart { text: "Cleanup contains additional target guards because removing an entire directory tree carries different risks from ordinary duplicate processing.", color: Role::Text },
    ];
    assert(parts_view(parts@) =~= seq![
        PartView { text: "Cleanup contains additional target guards because removing an entire directory tree carries different risks from ordinary duplicate processing."@, color: Role::Text },
    ]);
    append_block(doc, ManualBlock::ManualParagraph(parts));
    append_block(doc, ManualBlock::Section("Examples"));
    let parts = vec![
        ManualPart { text: "Report duplicate files 100MB or larger under", color: Role::Text },
        ManualPart { text: "~/Downloads:", color: Role::Accent },
    ];
    assert(parts_view(parts@) =~= seq![
        PartView { text: "Report duplicate files 100MB or larger under"@, color: Role::Text },
        PartView { text: "~/Downloads:"@, color: Role::Accent },
    ]);
    append_block(doc, ManualBlock::Example(parts, "nk ~/Downloads --min-size 100M"));
    let parts = vec![
        ManualPart { text: "Scan recursively and exclude selected directory trees:", color: Role::Text },
    ];
    assert(parts_view(parts@) =~= seq![
        PartView { text: "Scan recursively and exclude selected directory trees:"@, color: Role::Text },
    ]);
    append_block(doc, ManualBlock::Example(parts, "nk ~ -R --min-size 100M -E ~/bin ~/PycharmProjects ~/snap"));
    let parts = vec![
        ManualPart { text: "Prefer keeping matching files under", color: Role::Text },
        ManualPart { text: "~/DevX", color: Role::Accent },
        ManualPart { text: "before", color: Role::Text },
        ManualPart { text: "~/Documents:", color: Role::Accent },
    ];
    assert(parts_view(parts@) =~= seq![
        PartView { text: "Prefer keeping matching files under"@, color: Role::Text },
        PartView { text: "~/DevX"@, color: Role::Accent },
        PartView { text: "before"@, color: Role::Text },
        PartView { text: "~/Documents:"@, color: Role::Accent },
    ]);
    append_block(doc, ManualBlock::Example(parts, "nk ~ -R --min-size 100M -p ~/DevX ~/Documents"));
    assert(blocks_view(doc@) =~= start + manual_blocks_15(os));
}

#[verifier::spinoff_prover]
fn manual_document_part_16(doc: &mut Vec<ManualBlock>, os: TargetOs)
    requires
        descriptions_fit(blocks_view(old(doc)@)),
    ensures
        descriptions_fit(blocks_view(final(doc)@)),
        blocks_view(final(doc)@) == blocks_view(old(doc)@) + manual_blocks_16(os),
{
    let ghost start = blocks_view(doc@);
    let parts = vec![
        ManualPart { text: "Create recoverable quarantine copies without changing the originals:", color: Role::Text },
    ];
    assert(parts_view(parts@) =~= seq![
        PartView { text: "Create recoverable quarantine copies without changing the originals:"@, color: Role::Text },
    ]);
    append_block(doc, ManualBlock::Example(parts, "nk ~/Downloads -R --min-size 100M -q ~/nk-quarantine"));
    let parts = vec![
        ManualPart { text: "Quarantine removable duplicates first, then offer each original for permanent deletion:", color: Role::Text },
    ];
    assert(parts_view(parts@) =~= seq![
        PartView { text: "Quarantine removable duplicates first, then offer each original for permanent deletion:"@, color: Role::Text },
    ]);
    append_block(doc, ManualBlock::Example(parts, "nk ~/Downloads -R --min-size 100M -q ~/nk-quarantine -d -i"));
    let parts = vec![
        ManualPart { text: "Restore files from a Nightkrawler quarantine:", color: Role::Text },
    ];
    assert(parts_view(parts@) =~= seq![
        PartView { text: "Restore files from a Nightkrawler quarantine:"@, color: Role::Text },
    ]);
    append_block(doc, ManualBlock::Example(parts, "nk --restore ~/nk-quarantine"));
    let parts = vec![
        ManualPart { text: "Remove a quarantine after it is no longer needed:", color: Role::Text },
    ];
    assert(parts_view(parts@) =~= seq![
        PartView { text: "Remove a quarantine after it is no longer needed:"@, color: Role::Text },
    ]);
    append_block(doc, ManualBlock::Example(parts, "nk --cleanup ~/nk-quarantine"));
    let parts = vec![
        ManualPart { text: "For a compact command reference, use", color: Role::Text },
        ManualPart { text: "--help.", color: Role::Emphasis },
        ManualPart { text: "For focused information about ordinary, generated, and protected classifications, use", color: Role::Text },
        ManualPart { text: "--classification-help.", color: Role::Emphasis },
    ];
    assert(parts_view(parts@) =~= seq![
        PartView { text: "For a compact command reference, use"@, color: Role::Text },
        PartView { text: "--help."@, color: Role::Emphasis },
        PartView { text: "For focused information about ordinary, generated, and protected classifications, use"@, color: Role::Text },
        PartView { text: "--classification-help."@, color: Role::Emphasis },
    ]);
    append_block(doc, ManualBlock::ManualParagraph(parts));
    append_block(doc, ManualBlock::Bottom);
    append_block(doc, ManualBlock::Bottom);
    assert(blocks_view(doc@) =~= start + manual_blocks_16(os));
}

/// The blocks of the manual on the system `os`.
pub fn manual_document(os: TargetOs) -> (doc: Vec<ManualBlock>)
    ensures
        blocks_view(doc@) == manual_blocks(os),
        descriptions_fit(blocks_view(doc@)),
{
    let mut doc: Vec<ManualBlock> = Vec::new();
    assert(blocks_view(doc@) =~= Seq::<BlockView>::empty());
    manual_document_part_1(&mut doc, os);
    manual_document_part_2(&mut doc, os);
    manual_document_part_3(&mut doc, os);
    manual_document_part_4(&mut doc, os);
    manual_document_part_5(&mut doc, os);
    manual_document_part_6(&mut doc, os);
    manual_document_part_7(&mut doc, os);
    manual_document_part_8(&mut doc, os);
    manual_document_part_9(&mut doc, os);
    manual_document_part_10(&mut doc, os);
    manual_document_part_11(&mut doc, os);
    manual_document_part_12(&mut doc, os);
    manual_document_part_13(&mut doc, os);
    manual_document_part_14(&mut doc, os);
    manual_document_part_15(&mut doc, os);
    manual_document_part_16(&mut doc, os);
    assert(blocks_view(doc@) =~= manual_blocks_1(os) + manual_blocks_2(os) + manual_blocks_3(os) + manual_blocks_4(os) + manual_blocks_5(os) + manual_blocks_6(os) + manual_blocks_7(os) + manual_blocks_8(os) + manual_blocks_9(os) + manual_blocks_10(os) + manual_blocks_11(os) + manual_blocks_12(os) + manual_blocks_13(os) + manual_blocks_14(os) + manual_blocks_15(os) + manual_blocks_16(os));
    doc
}

/// Blocks 1 to 8 of the classification help on the system `os`.
pub open spec fn classification_blocks_1(os: TargetOs) -> Seq<BlockView> {
    seq![
        BlockView::Top,
        BlockView::Line("Nightkrawler Classification Help"@, Role::Title),
        BlockView::Separator,
        BlockView::Blank,
        BlockView::ManualParagraph(seq![
            PartView { text: "Nightkrawler classifies duplicate paths as"@, color: Role::Text },
            PartView { text: "ordinary, generated,"@, color: Role::Accent },
            PartView { text: "or"@, color: Role::Text },
            PartView { text: "protected."@, color: Role::Accent },
            PartView { text: "Classification helps make scan results easier to evaluate and adds safety around filesystem areas that deserve additional protection."@, color: Role::Text },
        ]),
        BlockView::Section("Classes"@),
        BlockView::Subsection("Ordinary"@, seq![
            PartView { text: "An ordinary path does not belong to a generated or protected tree. Most normal user files will fall into this class."@, color: Role::Text },
        ]),
        BlockView::Subsection("Generated"@, seq![
            PartView { text: "A generated path contains a directory name commonly associated with generated, cached, or rebuildable content."@, color: Role::Text },
        ]),
    ]
}

/// Blocks 9 to 16 of the classification help on the system `os`.
pub open spec fn classification_blocks_2(os: TargetOs) -> Seq<BlockView> {
    seq![
        BlockView::Paragraph(seq![
            PartView { text: "Recognized generated directory names include"@, color: Role::Text },
            PartView { text: "target, build, dist, .cache, __pycache__, node_modules,"@, color: Role::Accent },
            PartView { text: "and"@, color: Role::Text },
            PartView { text: ".gradle."@, color: Role::Accent },
        ], 4),
        BlockView::Blank,
        BlockView::Paragraph(seq![
            PartView { text: "Generated classification does not automatically remove or ignore a file. It is a classification used for reporting and evaluation."@, color: Role::Text },
        ], 4),
        BlockView::Blank,
        BlockView::Subsection("Protected"@, seq![
            PartView { text: "A protected path belongs to a filesystem tree where Nightkrawler action modes require explicit permission before operating on removable duplicate candidates."@, color: Role::Text },
        ]),
        BlockView::Paragraph(seq![
            PartView { text: "Built-in protected roots include"@, color: Role::Text },
            PartView { text: "/boot, /etc,"@, color: Role::Accent },
            PartView { text: "and"@, color: Role::Text },
            PartView { text: "/root."@, color: Role::Accent },
        ], 4),
        BlockView::Blank,
    ] + (if os == TargetOs::FreeBsd {
        seq![BlockView::Paragraph(seq![
            PartView { text: "On FreeBSD,"@, color: Role::Text },
            PartView { text: "/usr/local/etc"@, color: Role::Accent },
            PartView { text: "is protected by default."@, color: Role::Text },
        ], 4)]
    } else {
        seq![]
    })
}

/// Blocks 17 to 24 of the classification help on the system `os`.
pub open spec fn classification_blocks_3(os: TargetOs) -> Seq<BlockView> {
    (if os == TargetOs::FreeBsd {
        seq![BlockView::Blank]
    } else {
        seq![]
    }) + (if os == TargetOs::NetBsd {
        seq![BlockView::Paragraph(seq![
            PartView { text: "On NetBSD,"@, color: Role::Text },
            PartView { text: "/usr/pkg/etc"@, color: Role::Accent },
            PartView { text: "is protected by default."@, color: Role::Text },
        ], 4)]
    } else {
        seq![]
    }) + (if os == TargetOs::NetBsd {
        seq![BlockView::Blank]
    } else {
        seq![]
    }) + seq![
        BlockView::Paragraph(seq![
            PartView { text: "When"@, color: Role::Text },
            PartView { text: "HOME"@, color: Role::Emphasis },
            PartView { text: "is available, Nightkrawler also protects"@, color: Role::Text },
            PartView { text: "~/.ssh, ~/.gnupg,"@, color: Role::Accent },
            PartView { text: "and"@, color: Role::Text },
            PartView { text: "~/.config."@, color: Role::Accent },
        ], 4),
        BlockView::Blank,
        BlockView::Section("Group Classification"@),
        BlockView::ManualParagraph(seq![
            PartView { text: "Classification applies to complete duplicate groups as well as individual paths. If a group contains members from different classes, Nightkrawler reports the group using the most restrictive class present."@, color: Role::Text },
        ]),
        BlockView::Paragraph(seq![
            PartView { text: "Protected"@, color: Role::Accent },
            PartView { text: "takes precedence over"@, color: Role::Text },
            PartView { text: "Generated,"@, color: Role::Accent },
            PartView { text: "which takes precedence over"@, color: Role::Text },
            PartView { text: "Ordinary."@, color: Role::Accent },
        ], 4),
    ]
}

/// Blocks 25 to 32 of the classification help on the system `os`.
pub open spec fn classification_blocks_4(os: TargetOs) -> Seq<BlockView> {
    seq![
        BlockView::Blank,
        BlockView::Section("Custom Protection"@),
        BlockView::ManualParagraph(seq![
            PartView { text: "Use"@, color: Role::Text },
            PartView { text: "--protect"@, color: Role::Emphasis },
            PartView { text: "or"@, color: Role::Text },
            PartView { text: "-P"@, color: Role::Emphasis },
            PartView { text: "to add one or more protected directory trees for the current scan."@, color: Role::Text },
        ]),
        BlockView::Paragraph(seq![
            PartView { text: "nk ~ -R --min-size 100M --protect ~/.sensitive ~/important"@, color: Role::Example },
        ], 4),
        BlockView::Blank,
        BlockView::ManualParagraph(seq![
            PartView { text: "Protection is not the same as exclusion. A path supplied with"@, color: Role::Text },
            PartView { text: "--exclude"@, color: Role::Emphasis },
            PartView { text: "is not scanned. A path supplied with"@, color: Role::Text },
            PartView { text: "--protect"@, color: Role::Emphasis },
            PartView { text: "may still be scanned, classified, and reported."@, color: Role::Text },
        ]),
        BlockView::Section("Protection and Actions"@),
        BlockView::ManualParagraph(seq![
            PartView { text: "Report-only scans do not require"@, color: Role::Text },
            PartView { text: "--allow-protected."@, color: Role::Emphasis },
            PartView { text: "Protected duplicate groups may still be inspected and reported normally."@, color: Role::Text },
        ]),
    ]
}

/// Blocks 33 to 40 of the classification help on the system `os`.
pub open spec fn classification_blocks_5(os: TargetOs) -> Seq<BlockView> {
    seq![
        BlockView::ManualParagraph(seq![
            PartView { text: "If"@, color: Role::Text },
            PartView { text: "--quarantine, --trash,"@, color: Role::Emphasis },
            PartView { text: "or"@, color: Role::Text },
            PartView { text: "--delete"@, color: Role::Emphasis },
            PartView { text: "would act on a protected removable candidate, Nightkrawler performs a safety stop unless"@, color: Role::Text },
            PartView { text: "--allow-protected"@, color: Role::Emphasis },
            PartView { text: "was supplied."@, color: Role::Text },
        ]),
        BlockView::ManualParagraph(seq![
            PartView { text: "The safety stop reports the protected candidate, its protected root, and the scan path. The refused action does not change original files."@, color: Role::Text },
        ]),
        BlockView::ManualParagraph(seq![
            PartView { text: "--allow-protected"@, color: Role::Emphasis },
            PartView { text: "is an explicit override. It tells Nightkrawler that action on protected removable candidates is intentional."@, color: Role::Text },
        ]),
        BlockView::Section("Examples"@),
        BlockView::Example(seq![
            PartView { text: "Scan normally while treating"@, color: Role::Text },
            PartView { text: "~/.sensitive"@, color: Role::Accent },
            PartView { text: "as protected:"@, color: Role::Text },
        ], "nk ~ -R --min-size 100M --protect ~/.sensitive"@),
        BlockView::Example(seq![
            PartView { text: "Scan"@, color: Role::Text },
            PartView { text: "/"@, color: Role::Accent },
            PartView { text: "and explicitly permit quarantine action on protected candidates:"@, color: Role::Text },
        ], "nk / -R --min-size 100M -q /tmp/q --allow-protected"@),
        BlockView::Example(seq![
            PartView { text: "Exclude a tree entirely instead of protecting it:"@, color: Role::Text },
        ], "nk ~ -R --min-size 100M --exclude ~/.cache"@),
        BlockView::ManualParagraph(seq![
            PartView { text: "For the complete Nightkrawler documentation, use"@, color: Role::Text },
            PartView { text: "--manual."@, color: Role::Emphasis },
        ]),
    ]
}

/// Blocks 41 to 41 of the classification help on the system `os`.
pub open spec fn classification_blocks_6(os: TargetOs) -> Seq<BlockView> {
    seq![
        BlockView::Bottom,
    ]
}

/// The classification help on the system `os`, as blocks.
pub open spec fn classification_blocks(os: TargetOs) -> Seq<BlockView> {
    classification_blocks_1(os) + classification_blocks_2(os) + classification_blocks_3(os) + classification_blocks_4(os) + classification_blocks_5(os) + classification_blocks_6(os)
}

#[verifier::spinoff_prover]
fn classification_document_part_1(doc: &mut Vec<ManualBlock>, os: TargetOs)
    requires
        descriptions_fit(blocks_view(old(doc)@)),
    ensures
        descriptions_fit(blocks_view(final(doc)@)),
        blocks_view(final(doc)@) == blocks_view(old(doc)@) + classification_blocks_1(os),
{
    let ghost start = blocks_view(doc@);
    append_block(doc, ManualBlock::Top);
    append_block(doc, ManualBlock::Line("Nightkrawler Classification Help", Role::Title));
    append_block(doc, ManualBlock::Separator);
    append_block(doc, ManualBlock::Blank);
    let parts = vec![
        ManualPart { text: "Nightkrawler classifies duplicate paths as", color: Role::Text },
        ManualPart { text: "ordinary, generated,", color: Role::Accent },
        ManualPart { text: "or", color: Role::Text },
        ManualPart { text: "protected.", color: Role::Accent },
        ManualPart { text: "Classification helps make scan results easier to evaluate and adds safety around filesystem areas that deserve additional protection.", color: Role::Text },
    ];
    assert(parts_view(parts@) =~= seq![
        PartView { text: "Nightkrawler classifies duplicate paths as"@, color: Role::Text },
        PartView { text: "ordinary, generated,"@, color: Role::Accent },
        PartView { text: "or"@, color: Role::Text },
        PartView { text: "protected."@, color: Role::Accent },
        PartView { text: "Classification helps make scan results easier to evaluate and adds safety around filesystem areas that deserve additional protection."@, color: Role::Text },
    ]);
    append_block(doc, ManualBlock::ManualParagraph(parts));
    append_block(doc, ManualBlock::Section("Classes"));
    let parts = vec![
        ManualPart { text: "An ordinary path does not belong to a generated or protected tree. Most normal user files will fall into this class.", color: Role::Text },
    ];
    assert(parts_view(parts@) =~= seq![
        PartView { text: "An ordinary path does not belong to a generated or protected tree. Most normal user files will fall into this class."@, color: Role::Text },
    ]);
    append_block(doc, ManualBlock::Subsection("Ordinary", parts));
    let parts = vec![
        ManualPart { text: "A generated path contains a directory name commonly associated with generated, cached, or rebuildable content.", color: Role::Text },
    ];
    assert(parts_view(parts@) =~= seq![
        PartView { text: "A generated path contains a directory name commonly associated with generated, cached, or rebuildable content."@, color: Role::Text },
    ]);
    append_block(doc, ManualBlock::Subsection("Generated", parts));
    assert(blocks_view(doc@) =~= start + classification_blocks_1(os));
}

#[verifier::spinoff_prover]
fn classification_document_part_2(doc: &mut Vec<ManualBlock>, os: TargetOs)
    requires
        descriptions_fit(blocks_view(old(doc)@)),
    ensures
        descriptions_fit(blocks_view(final(doc)@)),
        blocks_view(final(doc)@) == blocks_view(old(doc)@) + classification_blocks_2(os),
{
    let ghost start = blocks_view(doc@);
    let parts = vec![
        ManualPart { text: "Recognized generated directory names include", color: Role::Text },
        ManualPart { text: "target, build, dist, .cache, __pycache__, node_modules,", color: Role::Accent },
        ManualPart { text: "and", color: Role::Text },
        ManualPart { text: ".gradle.", color: Role::Accent },
    ];
    assert(parts_view(parts@) =~= seq![
        PartView { text: "Recognized generated directory names include"@, color: Role::Text },
        PartView { text: "target, build, dist, .cache, __pycache__, node_modules,"@, color: Role::Accent },
        PartView { text: "and"@, color: Role::Text },
        PartView { text: ".gradle."@, color: Role::Accent },
    ]);
    append_block(doc, ManualBlock::Paragraph(parts, 4));
    append_block(doc, ManualBlock::Blank);
    let parts = vec![
        ManualPart { text: "Generated classification does not automatically remove or ignore a file. It is a classification used for reporting and evaluation.", color: Role::Text },
    ];
    assert(parts_view(parts@) =~= seq![
        PartView { text: "Generated classification does not automatically remove or ignore a file. It is a classification used for reporting and evaluation."@, color: Role::Text },
    ]);
    append_block(doc, ManualBlock::Paragraph(parts, 4));
    append_block(doc, ManualBlock::Blank);
    let parts = vec![
        ManualPart { text: "A protected path belongs to a filesystem tree where Nightkrawler action modes require explicit permission before operating on removable duplicate candidates.", color: Role::Text },
    ];
    assert(parts_view(parts@) =~= seq![
        PartView { text: "A protected path belongs to a filesystem tree where Nightkrawler action modes require explicit permission before operating on removable duplicate candidates."@, color: Role::Text },
    ]);
    append_block(doc, ManualBlock::Subsection("Protected", parts));
    let parts = vec![
        ManualPart { text: "Built-in protected roots include", color: Role::Text },
        ManualPart { text: "/boot, /etc,", color: Role::Accent },
        ManualPart { text: "and", color: Role::Text },
        ManualPart { text: "/root.", color: Role::Accent },
    ];
    assert(parts_view(parts@) =~= seq![
        PartView { text: "Built-in protected roots include"@, color: Role::Text },
        PartView { text: "/boot, /etc,"@, color: Role::Accent },
        PartView { text: "and"@, color: Role::Text },
        PartView { text: "/root."@, color: Role::Accent },
    ]);
    append_block(doc, ManualBlock::Paragraph(parts, 4));
    append_block(doc, ManualBlock::Blank);
    match os {
        TargetOs::FreeBsd => {
            let parts = vec![
                ManualPart { text: "On FreeBSD,", color: Role::Text },
                ManualPart { text: "/usr/local/etc", color: Role::Accent },
                ManualPart { text: "is protected by default.", color: Role::Text },
            ];
            assert(parts_view(parts@) =~= seq![
                PartView { text: "On FreeBSD,"@, color: Role::Text },
                PartView { text: "/usr/local/etc"@, color: Role::Accent },
                PartView { text: "is protected by default."@, color: Role::Text },
            ]);
            append_block(doc, ManualBlock::Paragraph(parts, 4));
        },
        _ => {},
    }
    assert(blocks_view(doc@) =~= start + classification_blocks_2(os));
}

#[verifier::spinoff_prover]
fn classification_document_part_3(doc: &mut Vec<ManualBlock>, os: TargetOs)
    requires
        descriptions_fit(blocks_view(old(doc)@)),
    ensures
        descriptions_fit(blocks_view(final(doc)@)),
        blocks_view(final(doc)@) == blocks_view(old(doc)@) + classification_blocks_3(os),
{
    let ghost start = blocks_view(doc@);
    match os {
        TargetOs::FreeBsd => {
            append_block(doc, ManualBlock::Blank);
        },
        _ => {},
    }
    match os {
        TargetOs::NetBsd => {
            let parts = vec![
                ManualPart { text: "On NetBSD,", color: Role::Text },
                ManualPart { text: "/usr/pkg/etc", color: Role::Accent },
                ManualPart { text: "is protected by default.", color: Role::Text },
            ];
            assert(parts_view(parts@) =~= seq![
                PartView { text: "On NetBSD,"@, color: Role::Text },
                PartView { text: "/usr/pkg/etc"@, color: Role::Accent },
                PartView { text: "is protected by default."@, color: Role::Text },
            ]);
            append_block(doc, ManualBlock::Paragraph(parts, 4));
        },
        _ => {},
    }
    match os {
        TargetOs::NetBsd => {
            append_block(doc, ManualBlock::Blank);
        },
        _ => {},
    }
    let parts = vec![
        ManualPart { text: "When", color: Role::Text },
        ManualPart { text: "HOME", color: Role::Emphasis },
        ManualPart { text: "is available, Nightkrawler also protects", color: Role::Text },
        ManualPart { text: "~/.ssh, ~/.gnupg,", color: Role::Accent },
        ManualPart { text: "and", color: Role::Text },
        ManualPart { text: "~/.config.", color: Role::Accent },
    ];
    assert(parts_view(parts@) =~= seq![
        PartView { text: "When"@, color: Role::Text },
        PartView { text: "HOME"@, color: Role::Emphasis },
        PartView { text: "is available, Nightkrawler also protects"@, color: Role::Text },
        PartView { text: "~/.ssh, ~/.gnupg,"@, color: Role::Accent },
        PartView { text: "and"@, color: Role::Text },
        PartView { text: "~/.config."@, color: Role::Accent },
    ]);
    append_block(doc, ManualBlock::Paragraph(parts, 4));
    append_block(doc, ManualBlock::Blank);
    append_block(doc, ManualBlock::Section("Group Classification"));
    let parts = vec![
        ManualPart { text: "Classification applies to complete duplicate groups as well as individual paths. If a group contains members from different classes, Nightkrawler reports the group using the most restrictive class present.", color: Role::Text },
    ];
    assert(parts_view(parts@) =~= seq![
        PartView { text: "Classification applies to complete duplicate groups as well as individual paths. If a group contains members from different classes, Nightkrawler reports the group using the most restrictive class present."@, color: Role::Text },
    ]);
    append_block(doc, ManualBlock::ManualParagraph(parts));
    let parts = vec![
        ManualPart { text: "Protected", color: Role::Accent },
        ManualPart { text: "takes precedence over", color: Role::Text },
        ManualPart { text: "Generated,", color: Role::Accent },
        ManualPart { text: "which takes precedence over", color: Role::Text },
        ManualPart { text: "Ordinary.", color: Role::Accent },
    ];
    assert(parts_view(parts@) =~= seq![
        PartView { text: "Protected"@, color: Role::Accent },
        PartView { text: "takes precedence over"@, color: Role::Text },
        PartView { text: "Generated,"@, color: Role::Accent },
        PartView { text: "which takes precedence over"@, color: Role::Text },
        PartView { text: "Ordinary."@, color: Role::Accent },
    ]);
    append_block(doc, ManualBlock::Paragraph(parts, 4));
    assert(blocks_view(doc@) =~= start + classification_blocks_3(os));
}

#[verifier::spinoff_prover]
fn classification_document_part_4(doc: &mut Vec<ManualBlock>, os: TargetOs)
    requires
        descriptions_fit(blocks_view(old(doc)@)),
    ensures
        descriptions_fit(blocks_view(final(doc)@)),
        blocks_view(final(doc)@) == blocks_view(old(doc)@) + classification_blocks_4(os),
{
    let ghost start = blocks_view(doc@);
    append_block(doc, ManualBlock::Blank);
    append_block(doc, ManualBlock::Section("Custom Protection"));
    let parts = vec![
        ManualPart { text: "Use", color: Role::Text },
        ManualPart { text: "--protect", color: Role::Emphasis },
        ManualPart { text: "or", color: Role::Text },
        ManualPart { text: "-P", color: Role::Emphasis },
        ManualPart { text: "to add one or more protected directory trees for the current scan.", color: Role::Text },
    ];
    assert(parts_view(parts@) =~= seq![
        PartView { text: "Use"@, color: Role::Text },
        PartView { text: "--protect"@, color: Role::Emphasis },
        PartView { text: "or"@, color: Role::Text },
        PartView { text: "-P"@, color: Role::Emphasis },
        PartView { text: "to add one or more protected directory trees for the current scan."@, color: Role::Text },
    ]);
    append_block(doc, ManualBlock::ManualParagraph(parts));
    let parts = vec![
        ManualPart { text: "nk ~ -R --min-size 100M --protect ~/.sensitive ~/important", color: Role::Example },
    ];
    assert(parts_view(parts@) =~= seq![
        PartView { text: "nk ~ -R --min-size 100M --protect ~/.sensitive ~/important"@, color: Role::Example },
    ]);
    append_block(doc, ManualBlock::Paragraph(parts, 4));
    append_block(doc, ManualBlock::Blank);
    let parts = vec![
        ManualPart { text: "Protection is not the same as exclusion. A path supplied with", color: Role::Text },
        ManualPart { text: "--exclude", color: Role::Emphasis },
        ManualPart { text: "is not scanned. A path supplied with", color: Role::Text },
        ManualPart { text: "--protect", color: Role::Emphasis },
        ManualPart { text: "may still be scanned, classified, and reported.", color: Role::Text },
    ];
    assert(parts_view(parts@) =~= seq![
        PartView { text: "Protection is not the same as exclusion. A path supplied with"@, color: Role::Text },
        PartView { text: "--exclude"@, color: Role::Emphasis },
        PartView { text: "is not scanned. A path supplied with"@, color: Role::Text },
        PartView { text: "--protect"@, color: Role::Emphasis },
        PartView { text: "may still be scanned, classified, and reported."@, color: Role::Text },
    ]);
    append_block(doc, ManualBlock::ManualParagraph(parts));
    append_block(doc, ManualBlock::Section("Protection and Actions"));
    let parts = vec![
        ManualPart { text: "Report-only scans do not require", color: Role::Text },
        ManualPart { text: "--allow-protected.", color: Role::Emphasis },
        ManualPart { text: "Protected duplicate groups may still be inspected and reported normally.", color: Role::Text },
    ];
    assert(parts_view(parts@) =~= seq![
        PartView { text: "Report-only scans do not require"@, color: Role::Text },
        PartView { text: "--allow-protected."@, color: Role::Emphasis },
        PartView { text: "Protected duplicate groups may still be inspected and reported normally."@, color: Role::Text },
    ]);
    append_block(doc, ManualBlock::ManualParagraph(parts));
    assert(blocks_view(doc@) =~= start + classification_blocks_4(os));
}

#[verifier::spinoff_prover]
fn classification_document_part_5(doc: &mut Vec<ManualBlock>, os: TargetOs)
    requires
        descriptions_fit(blocks_view(old(doc)@)),
    ensures
        descriptions_fit(blocks_view(final(doc)@)),
        blocks_view(final(doc)@) == blocks_view(old(doc)@) + classification_blocks_5(os),
{
    let ghost start = blocks_view(doc@);
    let parts = vec![
        ManualPart { text: "If", color: Role::Text },
        ManualPart { text: "--quarantine, --trash,", color: Role::Emphasis },
        ManualPart { text: "or", color: Role::Text },
        ManualPart { text: "--delete", color: Role::Emphasis },
        ManualPart { text: "would act on a protected removable candidate, Nightkrawler performs a safety stop unless", color: Role::Text },
        ManualPart { text: "--allow-protected", color: Role::Emphasis },
        ManualPart { text: "was supplied.", color: Role::Text },
    ];
    assert(parts_view(parts@) =~= seq![
        PartView { text: "If"@, color: Role::Text },
        PartView { text: "--quarantine, --trash,"@, color: Role::Emphasis },
        PartView { text: "or"@, color: Role::Text },
        PartView { text: "--delete"@, color: Role::Emphasis },
        PartView { text: "would act on a protected removable candidate, Nightkrawler performs a safety stop unless"@, color: Role::Text },
        PartView { text: "--allow-protected"@, color: Role::Emphasis },
        PartView { text: "was supplied."@, color: Role::Text },
    ]);
    append_block(doc, ManualBlock::ManualParagraph(parts));
    let parts = vec![
        ManualPart { text: "The safety stop reports the protected candidate, its protected root, and the scan path. The refused action does not change original files.", color: Role::Text },
    ];
    assert(parts_view(parts@) =~= seq![
        PartView { text: "The safety stop reports the protected candidate, its protected root, and the scan path. The refused action does not change original files."@, color: Role::Text },
    ]);
    append_block(doc, ManualBlock::ManualParagraph(parts));
    let parts = vec![
        ManualPart { text: "--allow-protected", color: Role::Emphasis },
        ManualPart { text: "is an explicit override. It tells Nightkrawler that action on protected removable candidates is intentional.", color: Role::Text },
    ];
    assert(parts_view(parts@) =~= seq![
        PartView { text: "--allow-protected"@, color: Role::Emphasis },
        PartView { text: "is an explicit override. It tells Nightkrawler that action on protected removable candidates is intentional."@, color: Role::Text },
    ]);
    append_block(doc, ManualBlock::ManualParagraph(parts));
    append_block(doc, ManualBlock::Section("Examples"));
    let parts = vec![
        ManualPart { text: "Scan normally while treating", color: Role::Text },
        ManualPart { text: "~/.sensitive", color: Role::Accent },
        ManualPart { text: "as protected:", color: Role::Text },
    ];
    assert(parts_view(parts@) =~= seq![
        PartView { text: "Scan normally while treating"@, color: Role::Text },
        PartView { text: "~/.sensitive"@, color: Role::Accent },
        PartView { text: "as protected:"@, color: Role::Text },
    ]);
    append_block(doc, ManualBlock::Example(parts, "nk ~ -R --min-size 100M --protect ~/.sensitive"));
    let parts = vec![
        ManualPart { text: "Scan", color: Role::Text },
        ManualPart { text: "/", color: Role::Accent },
        ManualPart { text: "and explicitly permit quarantine action on protected candidates:", color: Role::Text },
    ];
    assert(parts_view(parts@) =~= seq![
        PartView { text: "Scan"@, color: Role::Text },
        PartView { text: "/"@, color: Role::Accent },
        PartView { text: "and explicitly permit quarantine action on protected candidates:"@, color: Role::Text },
    ]);
    append_block(doc, ManualBlock::Example(parts, "nk / -R --min-size 100M -q /tmp/q --allow-protected"));
    let parts = vec![
        ManualPart { text: "Exclude a tree entirely instead of protecting it:", color: Role::Text },
    ];
    assert(parts_view(parts@) =~= seq![
        PartView { text: "Exclude a tree entirely instead of protecting it:"@, color: Role::Text },
    ]);
    append_block(doc, ManualBlock::Example(parts, "nk ~ -R --min-size 100M --exclude ~/.cache"));
    let parts = vec![
        ManualPart { text: "For the complete Nightkrawler documentation, use", color: Role::Text },
        ManualPart { text: "--manual.", color: Role::Emphasis },
    ];
    assert(parts_view(parts@) =~= seq![
        PartView { text: "For the complete Nightkrawler documentation, use"@, color: Role::Text },
        PartView { text: "--manual."@, color: Role::Emphasis },
    ]);
    append_block(doc, ManualBlock::ManualParagraph(parts));
    assert(blocks_view(doc@) =~= start + classification_blocks_5(os));
}

#[verifier::spinoff_prover]
fn classification_document_part_6(doc: &mut Vec<ManualBlock>, os: TargetOs)
    requires
        descriptions_fit(blocks_view(old(doc)@)),
    ensures
        descriptions_fit(blocks_view(final(doc)@)),
        blocks_view(final(doc)@) == blocks_view(old(doc)@) + classification_blocks_6(os),
{
    let ghost start = blocks_view(doc@);
    append_block(doc, ManualBlock::Bottom);
    assert(blocks_view(doc@) =~= start + classification_blocks_6(os));
}

/// The blocks of the classification help on the system `os`.
pub fn classification_document(os: TargetOs) -> (doc: Vec<ManualBlock>)
    ensures
        blocks_view(doc@) == classification_blocks(os),
        descriptions_fit(blocks_view(doc@)),
{
    let mut doc: Vec<ManualBlock> = Vec::new();
    assert(blocks_view(doc@) =~= Seq::<BlockView>::empty());
    classification_document_part_1(&mut doc, os);
    classification_document_part_2(&mut doc, os);
    classification_document_part_3(&mut doc, os);
    classification_document_part_4(&mut doc, os);
    classification_document_part_5(&mut doc, os);
    classification_document_part_6(&mut doc, os);
    assert(blocks_view(doc@) =~= classification_blocks_1(os) + classification_blocks_2(os) + classification_blocks_3(os) + classification_blocks_4(os) + classification_blocks_5(os) + classification_blocks_6(os));
    doc
}

/// Renders a document in the manual's palette or without colours.
fn render_with(doc: &Vec<ManualBlock>, colors_enabled: bool, inner_width: usize, ascii: bool) -> (lines: Vec<String>)
    requires
        inner_width + 4 <= usize::MAX,
        descriptions_fit(blocks_view(doc@)),
    ensures
        exists|c: ManualColors|
            is_palette(c, colors_enabled) && texts(lines@) == document_text(
                blocks_view(doc@),
                inner_width as nat,
                c,
                ascii,
            ),
{
    let colors = ManualColors::new(colors_enabled);
    render_document(doc, inner_width, &colors, ascii)
}

/// The lines of the `--help` text, framed to `inner_width` columns (see
/// `manual_inner_width`), in the ASCII frame where `ascii` is set.
pub fn print_help(colors_enabled: bool, inner_width: usize, ascii: bool) -> (lines: Vec<String>)
    requires
        inner_width + 4 <= usize::MAX,
    ensures
        exists|c: ManualColors|
            is_palette(c, colors_enabled) && texts(lines@) == document_text(help_blocks(), inner_width as nat, c, ascii),
{
    let doc = help_document();
    render_with(&doc, colors_enabled, inner_width, ascii)
}

/// The lines of the manual on the system `os`, framed to `inner_width`
/// columns, in the ASCII frame where `ascii` is set.
pub fn print_manual(colors_enabled: bool, inner_width: usize, ascii: bool, os: TargetOs) -> (lines: Vec<String>)
    requires
        inner_width + 4 <= usize::MAX,
    ensures
        exists|c: ManualColors|
            is_palette(c, colors_enabled) && texts(lines@) == document_text(manual_blocks(os), inner_width as nat, c, ascii),
{
    let doc = manual_document(os);
    render_with(&doc, colors_enabled, inner_width, ascii)
}

/// The lines of the classification help on the system `os`, framed to
/// `inner_width` columns, in the ASCII frame where `ascii` is set.
pub fn print_classification_help(colors_enabled: bool, inner_width: usize, ascii: bool, os: TargetOs) -> (lines: Vec<
    String,
>)
    requires
        inner_width + 4 <= usize::MAX,
    ensures
        exists|c: ManualColors|
            is_palette(c, colors_enabled) && texts(lines@) == document_text(
                classification_blocks(os),
                inner_width as nat,
                c,
                ascii,
            ),
{
    let doc = classification_document(os);
    render_with(&doc, colors_enabled, inner_width, ascii)
}

} // verus!
