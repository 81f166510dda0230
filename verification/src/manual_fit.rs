//! The texts of the help, the manual and the classification help fit their
//! frames: no line or option description is too long and no word is wider
//! than the room a paragraph gives it, for the help from an inner width of
//! 89 columns, for the manual and the classification help from 40.
use vstd::prelude::*;
use crate::classify::TargetOs;
use crate::manual::BlockView;
use crate::manual_text::{classification_blocks, classification_blocks_1, classification_blocks_2, classification_blocks_3, classification_blocks_4, classification_blocks_5, classification_blocks_6, help_blocks, help_blocks_1, help_blocks_10, help_blocks_2, help_blocks_3, help_blocks_4, help_blocks_5, help_blocks_6, help_blocks_7, help_blocks_8, help_blocks_9, manual_blocks, manual_blocks_1, manual_blocks_10, manual_blocks_11, manual_blocks_12, manual_blocks_13, manual_blocks_14, manual_blocks_15, manual_blocks_16, manual_blocks_2, manual_blocks_3, manual_blocks_4, manual_blocks_5, manual_blocks_6, manual_blocks_7, manual_blocks_8, manual_blocks_9};
use crate::plain_text::{block_short, short_runs, space_within};
use crate::size::is_white_space;

verus! {

/// Whether every block is short: no run of more than `k` characters
/// without white space in a wrapped text, lines of at most `line`
/// characters and option descriptions of at most `description`.
pub open spec fn blocks_short(bs: Seq<BlockView>, k: nat, line: nat, description: nat) -> bool {
    forall|i: int| 0 <= i < bs.len() ==> block_short(#[trigger] bs[i], k, line, description)
}

proof fn lemma_short_concat(a: Seq<BlockView>, b: Seq<BlockView>, k: nat, line: nat, description: nat)
    requires
        blocks_short(a, k, line, description),
        blocks_short(b, k, line, description),
    ensures
        blocks_short(a + b, k, line, description),
{
    assert forall|i: int| 0 <= i < (a + b).len() implies block_short(#[trigger] (a + b)[i], k, line, description) by {
        if i < a.len() {
            assert((a + b)[i] == a[i]);
        } else {
            assert((a + b)[i] == b[i - a.len()]);
        }
    }
}

#[verifier::spinoff_prover]
proof fn lemma_runs_0()
    ensures
        short_runs("moves files to Trash, if available, for manual recovery through your file manager."@, 80),
{
    reveal_strlit("moves files to Trash, if available, for manual recovery through your file manager.");
    assert forall|i: int| 0 <= i && i + 80 < "moves files to Trash, if available, for manual recovery through your file manager."@.len() implies #[trigger] space_within("moves files to Trash, if available, for manual recovery through your file manager."@, i, 80) by {
        {
            assert(is_white_space("moves files to Trash, if available, for manual recovery through your file manager."@[73]));
        }
    }
}

#[verifier::spinoff_prover]
proof fn lemma_runs_1()
    ensures
        short_runs("Scan the directory recursively, quarantine removable duplicates, then offer each original duplicate for deletion, while protecting"@, 80),
{
    reveal_strlit("Scan the directory recursively, quarantine removable duplicates, then offer each original duplicate for deletion, while protecting");
    assert forall|i: int| 0 <= i && i + 80 < "Scan the directory recursively, quarantine removable duplicates, then offer each original duplicate for deletion, while protecting"@.len() implies #[trigger] space_within("Scan the directory recursively, quarantine removable duplicates, then offer each original duplicate for deletion, while protecting"@, i, 80) by {
        {
            assert(is_white_space("Scan the directory recursively, quarantine removable duplicates, then offer each original duplicate for deletion, while protecting"@[80]));
        }
    }
}

#[verifier::spinoff_prover]
proof fn lemma_runs_2()
    ensures
        short_runs("recursively for files 100MB or larger and offer each removable duplicate for Trash interactively:"@, 80),
{
    reveal_strlit("recursively for files 100MB or larger and offer each removable duplicate for Trash interactively:");
    assert forall|i: int| 0 <= i && i + 80 < "recursively for files 100MB or larger and offer each removable duplicate for Trash interactively:"@.len() implies #[trigger] space_within("recursively for files 100MB or larger and offer each removable duplicate for Trash interactively:"@, i, 80) by {
        {
            assert(is_white_space("recursively for files 100MB or larger and offer each removable duplicate for Trash interactively:"@[76]));
        }
    }
}

#[verifier::spinoff_prover]
proof fn lemma_runs_3()
    ensures
        short_runs("Scan the directory recursively, quarantine removable duplicates, then move the original removable duplicates to Trash:"@, 80),
{
    reveal_strlit("Scan the directory recursively, quarantine removable duplicates, then move the original removable duplicates to Trash:");
    assert forall|i: int| 0 <= i && i + 80 < "Scan the directory recursively, quarantine removable duplicates, then move the original removable duplicates to Trash:"@.len() implies #[trigger] space_within("Scan the directory recursively, quarantine removable duplicates, then move the original removable duplicates to Trash:"@, i, 80) by {
        {
            assert(is_white_space("Scan the directory recursively, quarantine removable duplicates, then move the original removable duplicates to Trash:"@[78]));
        }
    }
}

#[verifier::spinoff_prover]
proof fn lemma_runs_4()
    ensures
        short_runs("Scan the directory recursively and permanently delete removable duplicate files larger than 100MB:"@, 80),
{
    reveal_strlit("Scan the directory recursively and permanently delete removable duplicate files larger than 100MB:");
    assert forall|i: int| 0 <= i && i + 80 < "Scan the directory recursively and permanently delete removable duplicate files larger than 100MB:"@.len() implies #[trigger] space_within("Scan the directory recursively and permanently delete removable duplicate files larger than 100MB:"@, i, 80) by {
        {
            assert(is_white_space("Scan the directory recursively and permanently delete removable duplicate files larger than 100MB:"@[79]));
        }
    }
}

#[verifier::spinoff_prover]
proof fn lemma_runs_5()
    ensures
        short_runs("Scan the directory recursively and offer each removable duplicate for deletion interactively:"@, 80),
{
    reveal_strlit("Scan the directory recursively and offer each removable duplicate for deletion interactively:");
    assert forall|i: int| 0 <= i && i + 80 < "Scan the directory recursively and offer each removable duplicate for deletion interactively:"@.len() implies #[trigger] space_within("Scan the directory recursively and offer each removable duplicate for deletion interactively:"@, i, 80) by {
        {
            assert(is_white_space("Scan the directory recursively and offer each removable duplicate for deletion interactively:"@[78]));
        }
    }
}

#[verifier::spinoff_prover]
proof fn lemma_runs_6()
    ensures
        short_runs("Scan the directory recursively, quarantine removable duplicates, then permanently delete the originals:"@, 80),
{
    reveal_strlit("Scan the directory recursively, quarantine removable duplicates, then permanently delete the originals:");
    assert forall|i: int| 0 <= i && i + 80 < "Scan the directory recursively, quarantine removable duplicates, then permanently delete the originals:"@.len() implies #[trigger] space_within("Scan the directory recursively, quarantine removable duplicates, then permanently delete the originals:"@, i, 80) by {
        {
            assert(is_white_space("Scan the directory recursively, quarantine removable duplicates, then permanently delete the originals:"@[69]));
        }
    }
}

#[verifier::spinoff_prover]
proof fn lemma_runs_7()
    ensures
        short_runs("Scan the directory recursively, quarantine removable duplicates, then offer each original removable duplicate for deletion:"@, 80),
{
    reveal_strlit("Scan the directory recursively, quarantine removable duplicates, then offer each original removable duplicate for deletion:");
    assert forall|i: int| 0 <= i && i + 80 < "Scan the directory recursively, quarantine removable duplicates, then offer each original removable duplicate for deletion:"@.len() implies #[trigger] space_within("Scan the directory recursively, quarantine removable duplicates, then offer each original removable duplicate for deletion:"@, i, 80) by {
        {
            assert(is_white_space("Scan the directory recursively, quarantine removable duplicates, then offer each original removable duplicate for deletion:"@[80]));
        }
    }
}

#[verifier::spinoff_prover]
proof fn lemma_runs_8()
    ensures
        short_runs("After the command has finished, Nightkrawler generates a report in the current directory or where specified by"@, 80),
{
    reveal_strlit("After the command has finished, Nightkrawler generates a report in the current directory or where specified by");
    assert forall|i: int| 0 <= i && i + 80 < "After the command has finished, Nightkrawler generates a report in the current directory or where specified by"@.len() implies #[trigger] space_within("After the command has finished, Nightkrawler generates a report in the current directory or where specified by"@, i, 80) by {
        {
            assert(is_white_space("After the command has finished, Nightkrawler generates a report in the current directory or where specified by"@[78]));
        }
    }
}

#[verifier::spinoff_prover]
proof fn lemma_runs_9()
    ensures
        short_runs("The report contains detailed information from the scan, quarantine, and Trash/delete process, as well as metadata about the scanned host."@, 80),
{
    reveal_strlit("The report contains detailed information from the scan, quarantine, and Trash/delete process, as well as metadata about the scanned host.");
    assert forall|i: int| 0 <= i && i + 80 < "The report contains detailed information from the scan, quarantine, and Trash/delete process, as well as metadata about the scanned host."@.len() implies #[trigger] space_within("The report contains detailed information from the scan, quarantine, and Trash/delete process, as well as metadata about the scanned host."@, i, 80) by {
        {
            assert(is_white_space("The report contains detailed information from the scan, quarantine, and Trash/delete process, as well as metadata about the scanned host."@[71]));
        }
    }
}

#[verifier::spinoff_prover]
proof fn lemma_runs_10()
    ensures
        short_runs("Nightkrawler is a duplicate file finder and removal tool designed around cautious inspection, explicit action modes, and recoverable workflows."@, 36),
{
    reveal_strlit("Nightkrawler is a duplicate file finder and removal tool designed around cautious inspection, explicit action modes, and recoverable workflows.");
    assert forall|i: int| 0 <= i && i + 36 < "Nightkrawler is a duplicate file finder and removal tool designed around cautious inspection, explicit action modes, and recoverable workflows."@.len() implies #[trigger] space_within("Nightkrawler is a duplicate file finder and removal tool designed around cautious inspection, explicit action modes, and recoverable workflows."@, i, 36) by {
        if i <= 32 {
            assert(is_white_space("Nightkrawler is a duplicate file finder and removal tool designed around cautious inspection, explicit action modes, and recoverable workflows."@[32]));
        } else if i <= 65 {
            assert(is_white_space("Nightkrawler is a duplicate file finder and removal tool designed around cautious inspection, explicit action modes, and recoverable workflows."@[65]));
        } else if i <= 102 {
            assert(is_white_space("Nightkrawler is a duplicate file finder and removal tool designed around cautious inspection, explicit action modes, and recoverable workflows."@[102]));
        } else if true {
            assert(is_white_space("Nightkrawler is a duplicate file finder and removal tool designed around cautious inspection, explicit action modes, and recoverable workflows."@[132]));
        }
    }
}

#[verifier::spinoff_prover]
proof fn lemma_runs_11()
    ensures
        short_runs("Nightkrawler scans regular files, groups files with identical content, chooses one file from each duplicate group to keep, and identifies the remaining copies as removable duplicates."@, 36),
{
    reveal_strlit("Nightkrawler scans regular files, groups files with identical content, chooses one file from each duplicate group to keep, and identifies the remaining copies as removable duplicates.");
    assert forall|i: int| 0 <= i && i + 36 < "Nightkrawler scans regular files, groups files with identical content, chooses one file from each duplicate group to keep, and identifies the remaining copies as removable duplicates."@.len() implies #[trigger] space_within("Nightkrawler scans regular files, groups files with identical content, chooses one file from each duplicate group to keep, and identifies the remaining copies as removable duplicates."@, i, 36) by {
        if i <= 33 {
            assert(is_white_space("Nightkrawler scans regular files, groups files with identical content, chooses one file from each duplicate group to keep, and identifies the remaining copies as removable duplicates."@[33]));
        } else if i <= 70 {
            assert(is_white_space("Nightkrawler scans regular files, groups files with identical content, chooses one file from each duplicate group to keep, and identifies the remaining copies as removable duplicates."@[70]));
        } else if i <= 107 {
            assert(is_white_space("Nightkrawler scans regular files, groups files with identical content, chooses one file from each duplicate group to keep, and identifies the remaining copies as removable duplicates."@[107]));
        } else if i <= 141 {
            assert(is_white_space("Nightkrawler scans regular files, groups files with identical content, chooses one file from each duplicate group to keep, and identifies the remaining copies as removable duplicates."@[141]));
        } else if true {
            assert(is_white_space("Nightkrawler scans regular files, groups files with identical content, chooses one file from each duplicate group to keep, and identifies the remaining copies as removable duplicates."@[171]));
        }
    }
}

#[verifier::spinoff_prover]
proof fn lemma_runs_12()
    ensures
        short_runs("Nightkrawler operates in report-only mode. It scans and reports duplicate groups without changing the original files."@, 36),
{
    reveal_strlit("Nightkrawler operates in report-only mode. It scans and reports duplicate groups without changing the original files.");
    assert forall|i: int| 0 <= i && i + 36 < "Nightkrawler operates in report-only mode. It scans and reports duplicate groups without changing the original files."@.len() implies #[trigger] space_within("Nightkrawler operates in report-only mode. It scans and reports duplicate groups without changing the original files."@, i, 36) by {
        if i <= 36 {
            assert(is_white_space("Nightkrawler operates in report-only mode. It scans and reports duplicate groups without changing the original files."@[36]));
        } else if i <= 73 {
            assert(is_white_space("Nightkrawler operates in report-only mode. It scans and reports duplicate groups without changing the original files."@[73]));
        } else if true {
            assert(is_white_space("Nightkrawler operates in report-only mode. It scans and reports duplicate groups without changing the original files."@[110]));
        }
    }
}

#[verifier::spinoff_prover]
proof fn lemma_runs_13()
    ensures
        short_runs("A duplicate group always keeps one matching file. Action modes operate only on the removable members of the group."@, 36),
{
    reveal_strlit("A duplicate group always keeps one matching file. Action modes operate only on the removable members of the group.");
    assert forall|i: int| 0 <= i && i + 36 < "A duplicate group always keeps one matching file. Action modes operate only on the removable members of the group."@.len() implies #[trigger] space_within("A duplicate group always keeps one matching file. Action modes operate only on the removable members of the group."@, i, 36) by {
        if i <= 34 {
            assert(is_white_space("A duplicate group always keeps one matching file. Action modes operate only on the removable members of the group."@[34]));
        } else if i <= 70 {
            assert(is_white_space("A duplicate group always keeps one matching file. Action modes operate only on the removable members of the group."@[70]));
        } else if true {
            assert(is_white_space("A duplicate group always keeps one matching file. Action modes operate only on the removable members of the group."@[107]));
        }
    }
}

#[verifier::spinoff_prover]
proof fn lemma_runs_14()
    ensures
        short_runs("Nightkrawler compares file contents rather than filenames. Files may have completely different names and still belong to the same duplicate group when their contents are identical."@, 36),
{
    reveal_strlit("Nightkrawler compares file contents rather than filenames. Files may have completely different names and still belong to the same duplicate group when their contents are identical.");
    assert forall|i: int| 0 <= i && i + 36 < "Nightkrawler compares file contents rather than filenames. Files may have completely different names and still belong to the same duplicate group when their contents are identical."@.len() implies #[trigger] space_within("Nightkrawler compares file contents rather than filenames. Files may have completely different names and still belong to the same duplicate group when their contents are identical."@, i, 36) by {
        if i <= 35 {
            assert(is_white_space("Nightkrawler compares file contents rather than filenames. Files may have completely different names and still belong to the same duplicate group when their contents are identical."@[35]));
        } else if i <= 68 {
            assert(is_white_space("Nightkrawler compares file contents rather than filenames. Files may have completely different names and still belong to the same duplicate group when their contents are identical."@[68]));
        } else if i <= 104 {
            assert(is_white_space("Nightkrawler compares file contents rather than filenames. Files may have completely different names and still belong to the same duplicate group when their contents are identical."@[104]));
        } else if i <= 139 {
            assert(is_white_space("Nightkrawler compares file contents rather than filenames. Files may have completely different names and still belong to the same duplicate group when their contents are identical."@[139]));
        } else if true {
            assert(is_white_space("Nightkrawler compares file contents rather than filenames. Files may have completely different names and still belong to the same duplicate group when their contents are identical."@[169]));
        }
    }
}

#[verifier::spinoff_prover]
proof fn lemma_runs_15()
    ensures
        short_runs("Zero-byte files follow the same duplicate rule as every other regular file. If several zero-byte files form a duplicate group, one is kept and the others are treated as removable duplicates."@, 36),
{
    reveal_strlit("Zero-byte files follow the same duplicate rule as every other regular file. If several zero-byte files form a duplicate group, one is kept and the others are treated as removable duplicates.");
    assert forall|i: int| 0 <= i && i + 36 < "Zero-byte files follow the same duplicate rule as every other regular file. If several zero-byte files form a duplicate group, one is kept and the others are treated as removable duplicates."@.len() implies #[trigger] space_within("Zero-byte files follow the same duplicate rule as every other regular file. If several zero-byte files form a duplicate group, one is kept and the others are treated as removable duplicates."@, i, 36) by {
        if i <= 31 {
            assert(is_white_space("Zero-byte files follow the same duplicate rule as every other regular file. If several zero-byte files form a duplicate group, one is kept and the others are treated as removable duplicates."@[31]));
        } else if i <= 61 {
            assert(is_white_space("Zero-byte files follow the same duplicate rule as every other regular file. If several zero-byte files form a duplicate group, one is kept and the others are treated as removable duplicates."@[61]));
        } else if i <= 96 {
            assert(is_white_space("Zero-byte files follow the same duplicate rule as every other regular file. If several zero-byte files form a duplicate group, one is kept and the others are treated as removable duplicates."@[96]));
        } else if i <= 133 {
            assert(is_white_space("Zero-byte files follow the same duplicate rule as every other regular file. If several zero-byte files form a duplicate group, one is kept and the others are treated as removable duplicates."@[133]));
        } else if true {
            assert(is_white_space("Zero-byte files follow the same duplicate rule as every other regular file. If several zero-byte files form a duplicate group, one is kept and the others are treated as removable duplicates."@[168]));
        }
    }
}

#[verifier::spinoff_prover]
proof fn lemma_runs_16()
    ensures
        short_runs("is the directory or file tree Nightkrawler will inspect. Only one scan path may be supplied."@, 36),
{
    reveal_strlit("is the directory or file tree Nightkrawler will inspect. Only one scan path may be supplied.");
    assert forall|i: int| 0 <= i && i + 36 < "is the directory or file tree Nightkrawler will inspect. Only one scan path may be supplied."@.len() implies #[trigger] space_within("is the directory or file tree Nightkrawler will inspect. Only one scan path may be supplied."@, i, 36) by {
        if i <= 29 {
            assert(is_white_space("is the directory or file tree Nightkrawler will inspect. Only one scan path may be supplied."@[29]));
        } else if true {
            assert(is_white_space("is the directory or file tree Nightkrawler will inspect. Only one scan path may be supplied."@[65]));
        }
    }
}

#[verifier::spinoff_prover]
proof fn lemma_runs_17()
    ensures
        short_runs("is required for scan commands. Files smaller than the selected threshold are ignored before duplicate comparison begins."@, 36),
{
    reveal_strlit("is required for scan commands. Files smaller than the selected threshold are ignored before duplicate comparison begins.");
    assert forall|i: int| 0 <= i && i + 36 < "is required for scan commands. Files smaller than the selected threshold are ignored before duplicate comparison begins."@.len() implies #[trigger] space_within("is required for scan commands. Files smaller than the selected threshold are ignored before duplicate comparison begins."@, i, 36) by {
        if i <= 36 {
            assert(is_white_space("is required for scan commands. Files smaller than the selected threshold are ignored before duplicate comparison begins."@[36]));
        } else if i <= 72 {
            assert(is_white_space("is required for scan commands. Files smaller than the selected threshold are ignored before duplicate comparison begins."@[72]));
        } else if true {
            assert(is_white_space("is required for scan commands. Files smaller than the selected threshold are ignored before duplicate comparison begins."@[101]));
        }
    }
}

#[verifier::spinoff_prover]
proof fn lemma_runs_18()
    ensures
        short_runs("accepts byte values or binary-style suffixes such as"@, 36),
{
    reveal_strlit("accepts byte values or binary-style suffixes such as");
    assert forall|i: int| 0 <= i && i + 36 < "accepts byte values or binary-style suffixes such as"@.len() implies #[trigger] space_within("accepts byte values or binary-style suffixes such as"@, i, 36) by {
        {
            assert(is_white_space("accepts byte values or binary-style suffixes such as"@[35]));
        }
    }
}

#[verifier::spinoff_prover]
proof fn lemma_runs_19()
    ensures
        short_runs("refer to the same program when the short command is installed as a symlink or configured as a shell alias. Packaged installations should provide the"@, 36),
{
    reveal_strlit("refer to the same program when the short command is installed as a symlink or configured as a shell alias. Packaged installations should provide the");
    assert forall|i: int| 0 <= i && i + 36 < "refer to the same program when the short command is installed as a symlink or configured as a shell alias. Packaged installations should provide the"@.len() implies #[trigger] space_within("refer to the same program when the short command is installed as a symlink or configured as a shell alias. Packaged installations should provide the"@, i, 36) by {
        if i <= 34 {
            assert(is_white_space("refer to the same program when the short command is installed as a symlink or configured as a shell alias. Packaged installations should provide the"@[34]));
        } else if i <= 66 {
            assert(is_white_space("refer to the same program when the short command is installed as a symlink or configured as a shell alias. Packaged installations should provide the"@[66]));
        } else if i <= 99 {
            assert(is_white_space("refer to the same program when the short command is installed as a symlink or configured as a shell alias. Packaged installations should provide the"@[99]));
        } else if true {
            assert(is_white_space("refer to the same program when the short command is installed as a symlink or configured as a shell alias. Packaged installations should provide the"@[136]));
        }
    }
}

#[verifier::spinoff_prover]
proof fn lemma_runs_20()
    ensures
        short_runs("Nightkrawler scans regular files only. Symbolic links are not followed and are not added to duplicate groups."@, 36),
{
    reveal_strlit("Nightkrawler scans regular files only. Symbolic links are not followed and are not added to duplicate groups.");
    assert forall|i: int| 0 <= i && i + 36 < "Nightkrawler scans regular files only. Symbolic links are not followed and are not added to duplicate groups."@.len() implies #[trigger] space_within("Nightkrawler scans regular files only. Symbolic links are not followed and are not added to duplicate groups."@, i, 36) by {
        if i <= 32 {
            assert(is_white_space("Nightkrawler scans regular files only. Symbolic links are not followed and are not added to duplicate groups."@[32]));
        } else if i <= 61 {
            assert(is_white_space("Nightkrawler scans regular files only. Symbolic links are not followed and are not added to duplicate groups."@[61]));
        } else if true {
            assert(is_white_space("Nightkrawler scans regular files only. Symbolic links are not followed and are not added to duplicate groups."@[91]));
        }
    }
}

#[verifier::spinoff_prover]
proof fn lemma_runs_21()
    ensures
        short_runs("Nightkrawler inspects files directly under the selected scan path. Recursive mode descends into subdirectories."@, 36),
{
    reveal_strlit("Nightkrawler inspects files directly under the selected scan path. Recursive mode descends into subdirectories.");
    assert forall|i: int| 0 <= i && i + 36 < "Nightkrawler inspects files directly under the selected scan path. Recursive mode descends into subdirectories."@.len() implies #[trigger] space_within("Nightkrawler inspects files directly under the selected scan path. Recursive mode descends into subdirectories."@, i, 36) by {
        if i <= 36 {
            assert(is_white_space("Nightkrawler inspects files directly under the selected scan path. Recursive mode descends into subdirectories."@[36]));
        } else if i <= 66 {
            assert(is_white_space("Nightkrawler inspects files directly under the selected scan path. Recursive mode descends into subdirectories."@[66]));
        } else if true {
            assert(is_white_space("Nightkrawler inspects files directly under the selected scan path. Recursive mode descends into subdirectories."@[95]));
        }
    }
}

#[verifier::spinoff_prover]
proof fn lemma_runs_22()
    ensures
        short_runs("Dot-directories are skipped during recursive scanning unless"@, 36),
{
    reveal_strlit("Dot-directories are skipped during recursive scanning unless");
    assert forall|i: int| 0 <= i && i + 36 < "Dot-directories are skipped during recursive scanning unless"@.len() implies #[trigger] space_within("Dot-directories are skipped during recursive scanning unless"@, i, 36) by {
        {
            assert(is_white_space("Dot-directories are skipped during recursive scanning unless"@[34]));
        }
    }
}

#[verifier::spinoff_prover]
proof fn lemma_runs_23()
    ensures
        short_runs("are omitted from scanning. Multiple excluded paths may be supplied after the option."@, 36),
{
    reveal_strlit("are omitted from scanning. Multiple excluded paths may be supplied after the option.");
    assert forall|i: int| 0 <= i && i + 36 < "are omitted from scanning. Multiple excluded paths may be supplied after the option."@.len() implies #[trigger] space_within("are omitted from scanning. Multiple excluded paths may be supplied after the option."@, i, 36) by {
        if i <= 35 {
            assert(is_white_space("are omitted from scanning. Multiple excluded paths may be supplied after the option."@[35]));
        } else if true {
            assert(is_white_space("are omitted from scanning. Multiple excluded paths may be supplied after the option."@[72]));
        }
    }
}

#[verifier::spinoff_prover]
proof fn lemma_runs_24()
    ensures
        short_runs("When a quarantine directory is configured, Nightkrawler also excludes that quarantine tree from the scan so copied quarantine files cannot immediately become duplicate candidates themselves."@, 36),
{
    reveal_strlit("When a quarantine directory is configured, Nightkrawler also excludes that quarantine tree from the scan so copied quarantine files cannot immediately become duplicate candidates themselves.");
    assert forall|i: int| 0 <= i && i + 36 < "When a quarantine directory is configured, Nightkrawler also excludes that quarantine tree from the scan so copied quarantine files cannot immediately become duplicate candidates themselves."@.len() implies #[trigger] space_within("When a quarantine directory is configured, Nightkrawler also excludes that quarantine tree from the scan so copied quarantine files cannot immediately become duplicate candidates themselves."@, i, 36) by {
        if i <= 30 {
            assert(is_white_space("When a quarantine directory is configured, Nightkrawler also excludes that quarantine tree from the scan so copied quarantine files cannot immediately become duplicate candidates themselves."@[30]));
        } else if i <= 60 {
            assert(is_white_space("When a quarantine directory is configured, Nightkrawler also excludes that quarantine tree from the scan so copied quarantine files cannot immediately become duplicate candidates themselves."@[60]));
        } else if i <= 95 {
            assert(is_white_space("When a quarantine directory is configured, Nightkrawler also excludes that quarantine tree from the scan so copied quarantine files cannot immediately become duplicate candidates themselves."@[95]));
        } else if i <= 131 {
            assert(is_white_space("When a quarantine directory is configured, Nightkrawler also excludes that quarantine tree from the scan so copied quarantine files cannot immediately become duplicate candidates themselves."@[131]));
        } else if true {
            assert(is_white_space("When a quarantine directory is configured, Nightkrawler also excludes that quarantine tree from the scan so copied quarantine files cannot immediately become duplicate candidates themselves."@[167]));
        }
    }
}

#[verifier::spinoff_prover]
proof fn lemma_runs_25()
    ensures
        short_runs("Files are first grouped by size. Files with unique sizes require no further duplicate comparison. Matching-size candidates are hashed and then verified by direct byte comparison before they are accepted as identical."@, 36),
{
    reveal_strlit("Files are first grouped by size. Files with unique sizes require no further duplicate comparison. Matching-size candidates are hashed and then verified by direct byte comparison before they are accepted as identical.");
    assert forall|i: int| 0 <= i && i + 36 < "Files are first grouped by size. Files with unique sizes require no further duplicate comparison. Matching-size candidates are hashed and then verified by direct byte comparison before they are accepted as identical."@.len() implies #[trigger] space_within("Files are first grouped by size. Files with unique sizes require no further duplicate comparison. Matching-size candidates are hashed and then verified by direct byte comparison before they are accepted as identical."@, i, 36) by {
        if i <= 32 {
            assert(is_white_space("Files are first grouped by size. Files with unique sizes require no further duplicate comparison. Matching-size candidates are hashed and then verified by direct byte comparison before they are accepted as identical."@[32]));
        } else if i <= 67 {
            assert(is_white_space("Files are first grouped by size. Files with unique sizes require no further duplicate comparison. Matching-size candidates are hashed and then verified by direct byte comparison before they are accepted as identical."@[67]));
        } else if i <= 97 {
            assert(is_white_space("Files are first grouped by size. Files with unique sizes require no further duplicate comparison. Matching-size candidates are hashed and then verified by direct byte comparison before they are accepted as identical."@[97]));
        } else if i <= 133 {
            assert(is_white_space("Files are first grouped by size. Files with unique sizes require no further duplicate comparison. Matching-size candidates are hashed and then verified by direct byte comparison before they are accepted as identical."@[133]));
        } else if i <= 166 {
            assert(is_white_space("Files are first grouped by size. Files with unique sizes require no further duplicate comparison. Matching-size candidates are hashed and then verified by direct byte comparison before they are accepted as identical."@[166]));
        } else if true {
            assert(is_white_space("Files are first grouped by size. Files with unique sizes require no further duplicate comparison. Matching-size candidates are hashed and then verified by direct byte comparison before they are accepted as identical."@[202]));
        }
    }
}

#[verifier::spinoff_prover]
proof fn lemma_runs_26()
    ensures
        short_runs("This final byte comparison prevents a hash match alone from being treated as proof that two files are identical."@, 36),
{
    reveal_strlit("This final byte comparison prevents a hash match alone from being treated as proof that two files are identical.");
    assert forall|i: int| 0 <= i && i + 36 < "This final byte comparison prevents a hash match alone from being treated as proof that two files are identical."@.len() implies #[trigger] space_within("This final byte comparison prevents a hash match alone from being treated as proof that two files are identical."@, i, 36) by {
        if i <= 35 {
            assert(is_white_space("This final byte comparison prevents a hash match alone from being treated as proof that two files are identical."@[35]));
        } else if i <= 65 {
            assert(is_white_space("This final byte comparison prevents a hash match alone from being treated as proof that two files are identical."@[65]));
        } else if true {
            assert(is_white_space("This final byte comparison prevents a hash match alone from being treated as proof that two files are identical."@[101]));
        }
    }
}

#[verifier::spinoff_prover]
proof fn lemma_runs_27()
    ensures
        short_runs("Nightkrawler classifies duplicate paths as"@, 36),
{
    reveal_strlit("Nightkrawler classifies duplicate paths as");
    assert forall|i: int| 0 <= i && i + 36 < "Nightkrawler classifies duplicate paths as"@.len() implies #[trigger] space_within("Nightkrawler classifies duplicate paths as"@, i, 36) by {
        {
            assert(is_white_space("Nightkrawler classifies duplicate paths as"@[33]));
        }
    }
}

#[verifier::spinoff_prover]
proof fn lemma_runs_28()
    ensures
        short_runs("Classification helps distinguish normal files from generated trees and filesystem areas that deserve additional protection."@, 36),
{
    reveal_strlit("Classification helps distinguish normal files from generated trees and filesystem areas that deserve additional protection.");
    assert forall|i: int| 0 <= i && i + 36 < "Classification helps distinguish normal files from generated trees and filesystem areas that deserve additional protection."@.len() implies #[trigger] space_within("Classification helps distinguish normal files from generated trees and filesystem areas that deserve additional protection."@, i, 36) by {
        if i <= 32 {
            assert(is_white_space("Classification helps distinguish normal files from generated trees and filesystem areas that deserve additional protection."@[32]));
        } else if i <= 66 {
            assert(is_white_space("Classification helps distinguish normal files from generated trees and filesystem areas that deserve additional protection."@[66]));
        } else if true {
            assert(is_white_space("Classification helps distinguish normal files from generated trees and filesystem areas that deserve additional protection."@[100]));
        }
    }
}

#[verifier::spinoff_prover]
proof fn lemma_runs_29()
    ensures
        short_runs("An ordinary path is a file that does not fall under a generated or protected path rule."@, 36),
{
    reveal_strlit("An ordinary path is a file that does not fall under a generated or protected path rule.");
    assert forall|i: int| 0 <= i && i + 36 < "An ordinary path is a file that does not fall under a generated or protected path rule."@.len() implies #[trigger] space_within("An ordinary path is a file that does not fall under a generated or protected path rule."@, i, 36) by {
        if i <= 36 {
            assert(is_white_space("An ordinary path is a file that does not fall under a generated or protected path rule."@[36]));
        } else if true {
            assert(is_white_space("An ordinary path is a file that does not fall under a generated or protected path rule."@[66]));
        }
    }
}

#[verifier::spinoff_prover]
proof fn lemma_runs_30()
    ensures
        short_runs("Generated paths are recognized when their path contains common generated-directory names such as"@, 36),
{
    reveal_strlit("Generated paths are recognized when their path contains common generated-directory names such as");
    assert forall|i: int| 0 <= i && i + 36 < "Generated paths are recognized when their path contains common generated-directory names such as"@.len() implies #[trigger] space_within("Generated paths are recognized when their path contains common generated-directory names such as"@, i, 36) by {
        if i <= 35 {
            assert(is_white_space("Generated paths are recognized when their path contains common generated-directory names such as"@[35]));
        } else if true {
            assert(is_white_space("Generated paths are recognized when their path contains common generated-directory names such as"@[62]));
        }
    }
}

#[verifier::spinoff_prover]
proof fn lemma_runs_31()
    ensures
        short_runs("target, build, dist, .cache, __pycache__, node_modules,"@, 36),
{
    reveal_strlit("target, build, dist, .cache, __pycache__, node_modules,");
    assert forall|i: int| 0 <= i && i + 36 < "target, build, dist, .cache, __pycache__, node_modules,"@.len() implies #[trigger] space_within("target, build, dist, .cache, __pycache__, node_modules,"@, i, 36) by {
        {
            assert(is_white_space("target, build, dist, .cache, __pycache__, node_modules,"@[28]));
        }
    }
}

#[verifier::spinoff_prover]
proof fn lemma_runs_32()
    ensures
        short_runs("Generated classification does not automatically delete anything. It describes where the duplicate group was found and helps make reports easier to evaluate."@, 36),
{
    reveal_strlit("Generated classification does not automatically delete anything. It describes where the duplicate group was found and helps make reports easier to evaluate.");
    assert forall|i: int| 0 <= i && i + 36 < "Generated classification does not automatically delete anything. It describes where the duplicate group was found and helps make reports easier to evaluate."@.len() implies #[trigger] space_within("Generated classification does not automatically delete anything. It describes where the duplicate group was found and helps make reports easier to evaluate."@, i, 36) by {
        if i <= 33 {
            assert(is_white_space("Generated classification does not automatically delete anything. It describes where the duplicate group was found and helps make reports easier to evaluate."@[33]));
        } else if i <= 67 {
            assert(is_white_space("Generated classification does not automatically delete anything. It describes where the duplicate group was found and helps make reports easier to evaluate."@[67]));
        } else if i <= 103 {
            assert(is_white_space("Generated classification does not automatically delete anything. It describes where the duplicate group was found and helps make reports easier to evaluate."@[103]));
        } else if true {
            assert(is_white_space("Generated classification does not automatically delete anything. It describes where the duplicate group was found and helps make reports easier to evaluate."@[136]));
        }
    }
}

#[verifier::spinoff_prover]
proof fn lemma_runs_33()
    ensures
        short_runs("Protected paths are filesystem trees where action modes require explicit permission through"@, 36),
{
    reveal_strlit("Protected paths are filesystem trees where action modes require explicit permission through");
    assert forall|i: int| 0 <= i && i + 36 < "Protected paths are filesystem trees where action modes require explicit permission through"@.len() implies #[trigger] space_within("Protected paths are filesystem trees where action modes require explicit permission through"@, i, 36) by {
        if i <= 36 {
            assert(is_white_space("Protected paths are filesystem trees where action modes require explicit permission through"@[36]));
        } else if true {
            assert(is_white_space("Protected paths are filesystem trees where action modes require explicit permission through"@[72]));
        }
    }
}

#[verifier::spinoff_prover]
proof fn lemma_runs_34()
    ensures
        short_runs("is available, Nightkrawler also protects"@, 36),
{
    reveal_strlit("is available, Nightkrawler also protects");
    assert forall|i: int| 0 <= i && i + 36 < "is available, Nightkrawler also protects"@.len() implies #[trigger] space_within("is available, Nightkrawler also protects"@, i, 36) by {
        {
            assert(is_white_space("is available, Nightkrawler also protects"@[31]));
        }
    }
}

#[verifier::spinoff_prover]
proof fn lemma_runs_35()
    ensures
        short_runs("Additional protected trees may be supplied with"@, 36),
{
    reveal_strlit("Additional protected trees may be supplied with");
    assert forall|i: int| 0 <= i && i + 36 < "Additional protected trees may be supplied with"@.len() implies #[trigger] space_within("Additional protected trees may be supplied with"@, i, 36) by {
        {
            assert(is_white_space("Additional protected trees may be supplied with"@[33]));
        }
    }
}

#[verifier::spinoff_prover]
proof fn lemma_runs_36()
    ensures
        short_runs("If any file in a duplicate group belongs to a more restrictive classification, the group is reported using that classification."@, 36),
{
    reveal_strlit("If any file in a duplicate group belongs to a more restrictive classification, the group is reported using that classification.");
    assert forall|i: int| 0 <= i && i + 36 < "If any file in a duplicate group belongs to a more restrictive classification, the group is reported using that classification."@.len() implies #[trigger] space_within("If any file in a duplicate group belongs to a more restrictive classification, the group is reported using that classification."@, i, 36) by {
        if i <= 32 {
            assert(is_white_space("If any file in a duplicate group belongs to a more restrictive classification, the group is reported using that classification."@[32]));
        } else if i <= 62 {
            assert(is_white_space("If any file in a duplicate group belongs to a more restrictive classification, the group is reported using that classification."@[62]));
        } else if true {
            assert(is_white_space("If any file in a duplicate group belongs to a more restrictive classification, the group is reported using that classification."@[91]));
        }
    }
}

#[verifier::spinoff_prover]
proof fn lemma_runs_37()
    ensures
        short_runs("For a shorter explanation focused only on classification, use"@, 36),
{
    reveal_strlit("For a shorter explanation focused only on classification, use");
    assert forall|i: int| 0 <= i && i + 36 < "For a shorter explanation focused only on classification, use"@.len() implies #[trigger] space_within("For a shorter explanation focused only on classification, use"@, i, 36) by {
        {
            assert(is_white_space("For a shorter explanation focused only on classification, use"@[33]));
        }
    }
}

#[verifier::spinoff_prover]
proof fn lemma_runs_38()
    ensures
        short_runs("Every duplicate group contains one file selected as the keeper. The remaining matching files become removable candidates."@, 36),
{
    reveal_strlit("Every duplicate group contains one file selected as the keeper. The remaining matching files become removable candidates.");
    assert forall|i: int| 0 <= i && i + 36 < "Every duplicate group contains one file selected as the keeper. The remaining matching files become removable candidates."@.len() implies #[trigger] space_within("Every duplicate group contains one file selected as the keeper. The remaining matching files become removable candidates."@, i, 36) by {
        if i <= 34 {
            assert(is_white_space("Every duplicate group contains one file selected as the keeper. The remaining matching files become removable candidates."@[34]));
        } else if i <= 67 {
            assert(is_white_space("Every duplicate group contains one file selected as the keeper. The remaining matching files become removable candidates."@[67]));
        } else if true {
            assert(is_white_space("Every duplicate group contains one file selected as the keeper. The remaining matching files become removable candidates."@[99]));
        }
    }
}

#[verifier::spinoff_prover]
proof fn lemma_runs_39()
    ensures
        short_runs("Keeper selection never means that Nightkrawler considers the other files different. All members of the group have already been verified as identical by content."@, 36),
{
    reveal_strlit("Keeper selection never means that Nightkrawler considers the other files different. All members of the group have already been verified as identical by content.");
    assert forall|i: int| 0 <= i && i + 36 < "Keeper selection never means that Nightkrawler considers the other files different. All members of the group have already been verified as identical by content."@.len() implies #[trigger] space_within("Keeper selection never means that Nightkrawler considers the other files different. All members of the group have already been verified as identical by content."@, i, 36) by {
        if i <= 33 {
            assert(is_white_space("Keeper selection never means that Nightkrawler considers the other files different. All members of the group have already been verified as identical by content."@[33]));
        } else if i <= 66 {
            assert(is_white_space("Keeper selection never means that Nightkrawler considers the other files different. All members of the group have already been verified as identical by content."@[66]));
        } else if i <= 102 {
            assert(is_white_space("Keeper selection never means that Nightkrawler considers the other files different. All members of the group have already been verified as identical by content."@[102]));
        } else if true {
            assert(is_white_space("Keeper selection never means that Nightkrawler considers the other files different. All members of the group have already been verified as identical by content."@[138]));
        }
    }
}

#[verifier::spinoff_prover]
proof fn lemma_runs_40()
    ensures
        short_runs("The default keeper policy uses deterministic path-based ordering. Files under locations commonly associated with temporary or replaceable content are less preferred than ordinary locations."@, 36),
{
    reveal_strlit("The default keeper policy uses deterministic path-based ordering. Files under locations commonly associated with temporary or replaceable content are less preferred than ordinary locations.");
    assert forall|i: int| 0 <= i && i + 36 < "The default keeper policy uses deterministic path-based ordering. Files under locations commonly associated with temporary or replaceable content are less preferred than ordinary locations."@.len() implies #[trigger] space_within("The default keeper policy uses deterministic path-based ordering. Files under locations commonly associated with temporary or replaceable content are less preferred than ordinary locations."@, i, 36) by {
        if i <= 30 {
            assert(is_white_space("The default keeper policy uses deterministic path-based ordering. Files under locations commonly associated with temporary or replaceable content are less preferred than ordinary locations."@[30]));
        } else if i <= 65 {
            assert(is_white_space("The default keeper policy uses deterministic path-based ordering. Files under locations commonly associated with temporary or replaceable content are less preferred than ordinary locations."@[65]));
        } else if i <= 96 {
            assert(is_white_space("The default keeper policy uses deterministic path-based ordering. Files under locations commonly associated with temporary or replaceable content are less preferred than ordinary locations."@[96]));
        } else if i <= 125 {
            assert(is_white_space("The default keeper policy uses deterministic path-based ordering. Files under locations commonly associated with temporary or replaceable content are less preferred than ordinary locations."@[125]));
        } else if true {
            assert(is_white_space("The default keeper policy uses deterministic path-based ordering. Files under locations commonly associated with temporary or replaceable content are less preferred than ordinary locations."@[154]));
        }
    }
}

#[verifier::spinoff_prover]
proof fn lemma_runs_41()
    ensures
        short_runs("Examples of less-preferred locations include"@, 36),
{
    reveal_strlit("Examples of less-preferred locations include");
    assert forall|i: int| 0 <= i && i + 36 < "Examples of less-preferred locations include"@.len() implies #[trigger] space_within("Examples of less-preferred locations include"@, i, 36) by {
        {
            assert(is_white_space("Examples of less-preferred locations include"@[36]));
        }
    }
}

#[verifier::spinoff_prover]
proof fn lemma_runs_42()
    ensures
        short_runs("When candidates remain tied, Nightkrawler uses path depth and pathname ordering to make the final choice reproducible."@, 36),
{
    reveal_strlit("When candidates remain tied, Nightkrawler uses path depth and pathname ordering to make the final choice reproducible.");
    assert forall|i: int| 0 <= i && i + 36 < "When candidates remain tied, Nightkrawler uses path depth and pathname ordering to make the final choice reproducible."@.len() implies #[trigger] space_within("When candidates remain tied, Nightkrawler uses path depth and pathname ordering to make the final choice reproducible."@, i, 36) by {
        if i <= 28 {
            assert(is_white_space("When candidates remain tied, Nightkrawler uses path depth and pathname ordering to make the final choice reproducible."@[28]));
        } else if i <= 61 {
            assert(is_white_space("When candidates remain tied, Nightkrawler uses path depth and pathname ordering to make the final choice reproducible."@[61]));
        } else if true {
            assert(is_white_space("When candidates remain tied, Nightkrawler uses path depth and pathname ordering to make the final choice reproducible."@[97]));
        }
    }
}

#[verifier::spinoff_prover]
proof fn lemma_runs_43()
    ensures
        short_runs("to give one or more directory trees explicit keeper priority."@, 36),
{
    reveal_strlit("to give one or more directory trees explicit keeper priority.");
    assert forall|i: int| 0 <= i && i + 36 < "to give one or more directory trees explicit keeper priority."@.len() implies #[trigger] space_within("to give one or more directory trees explicit keeper priority."@, i, 36) by {
        {
            assert(is_white_space("to give one or more directory trees explicit keeper priority."@[35]));
        }
    }
}

#[verifier::spinoff_prover]
proof fn lemma_runs_44()
    ensures
        short_runs("Preferred paths are ordered. The first path has the highest priority, followed by the second, and so on."@, 36),
{
    reveal_strlit("Preferred paths are ordered. The first path has the highest priority, followed by the second, and so on.");
    assert forall|i: int| 0 <= i && i + 36 < "Preferred paths are ordered. The first path has the highest priority, followed by the second, and so on."@.len() implies #[trigger] space_within("Preferred paths are ordered. The first path has the highest priority, followed by the second, and so on."@, i, 36) by {
        if i <= 32 {
            assert(is_white_space("Preferred paths are ordered. The first path has the highest priority, followed by the second, and so on."@[32]));
        } else if true {
            assert(is_white_space("Preferred paths are ordered. The first path has the highest priority, followed by the second, and so on."@[69]));
        }
    }
}

#[verifier::spinoff_prover]
proof fn lemma_runs_45()
    ensures
        short_runs("nk ~ -R --min-size 100M --prefer ~/DevX ~/Documents"@, 36),
{
    reveal_strlit("nk ~ -R --min-size 100M --prefer ~/DevX ~/Documents");
    assert forall|i: int| 0 <= i && i + 36 < "nk ~ -R --min-size 100M --prefer ~/DevX ~/Documents"@.len() implies #[trigger] space_within("nk ~ -R --min-size 100M --prefer ~/DevX ~/Documents"@, i, 36) by {
        {
            assert(is_white_space("nk ~ -R --min-size 100M --prefer ~/DevX ~/Documents"@[32]));
        }
    }
}

#[verifier::spinoff_prover]
proof fn lemma_runs_46()
    ensures
        short_runs("In this example, a matching file under"@, 36),
{
    reveal_strlit("In this example, a matching file under");
    assert forall|i: int| 0 <= i && i + 36 < "In this example, a matching file under"@.len() implies #[trigger] space_within("In this example, a matching file under"@, i, 36) by {
        {
            assert(is_white_space("In this example, a matching file under"@[32]));
        }
    }
}

#[verifier::spinoff_prover]
proof fn lemma_runs_47()
    ensures
        short_runs("is preferred first. A matching file under"@, 36),
{
    reveal_strlit("is preferred first. A matching file under");
    assert forall|i: int| 0 <= i && i + 36 < "is preferred first. A matching file under"@.len() implies #[trigger] space_within("is preferred first. A matching file under"@, i, 36) by {
        {
            assert(is_white_space("is preferred first. A matching file under"@[35]));
        }
    }
}

#[verifier::spinoff_prover]
proof fn lemma_runs_48()
    ensures
        short_runs("policy searches pathname components for version-like values such as"@, 36),
{
    reveal_strlit("policy searches pathname components for version-like values such as");
    assert forall|i: int| 0 <= i && i + 36 < "policy searches pathname components for version-like values such as"@.len() implies #[trigger] space_within("policy searches pathname components for version-like values such as"@, i, 36) by {
        {
            assert(is_white_space("policy searches pathname components for version-like values such as"@[35]));
        }
    }
}

#[verifier::spinoff_prover]
proof fn lemma_runs_49()
    ensures
        short_runs("When version-like candidates are available, Nightkrawler prefers the file associated with the highest detected version. Other keeper rules are used to break ties or when no usable version is found."@, 36),
{
    reveal_strlit("When version-like candidates are available, Nightkrawler prefers the file associated with the highest detected version. Other keeper rules are used to break ties or when no usable version is found.");
    assert forall|i: int| 0 <= i && i + 36 < "When version-like candidates are available, Nightkrawler prefers the file associated with the highest detected version. Other keeper rules are used to break ties or when no usable version is found."@.len() implies #[trigger] space_within("When version-like candidates are available, Nightkrawler prefers the file associated with the highest detected version. Other keeper rules are used to break ties or when no usable version is found."@, i, 36) by {
        if i <= 32 {
            assert(is_white_space("When version-like candidates are available, Nightkrawler prefers the file associated with the highest detected version. Other keeper rules are used to break ties or when no usable version is found."@[32]));
        } else if i <= 68 {
            assert(is_white_space("When version-like candidates are available, Nightkrawler prefers the file associated with the highest detected version. Other keeper rules are used to break ties or when no usable version is found."@[68]));
        } else if i <= 101 {
            assert(is_white_space("When version-like candidates are available, Nightkrawler prefers the file associated with the highest detected version. Other keeper rules are used to break ties or when no usable version is found."@[101]));
        } else if i <= 138 {
            assert(is_white_space("When version-like candidates are available, Nightkrawler prefers the file associated with the highest detected version. Other keeper rules are used to break ties or when no usable version is found."@[138]));
        } else if true {
            assert(is_white_space("When version-like candidates are available, Nightkrawler prefers the file associated with the highest detected version. Other keeper rules are used to break ties or when no usable version is found."@[172]));
        }
    }
}

#[verifier::spinoff_prover]
proof fn lemma_runs_50()
    ensures
        short_runs("paths take priority before the selected keeper policy is applied."@, 36),
{
    reveal_strlit("paths take priority before the selected keeper policy is applied.");
    assert forall|i: int| 0 <= i && i + 36 < "paths take priority before the selected keeper policy is applied."@.len() implies #[trigger] space_within("paths take priority before the selected keeper policy is applied."@, i, 36) by {
        {
            assert(is_white_space("paths take priority before the selected keeper policy is applied."@[30]));
        }
    }
}

#[verifier::spinoff_prover]
proof fn lemma_runs_51()
    ensures
        short_runs("Protection is separate from exclusion. An excluded path is not scanned. A protected path may still be scanned and reported, but action modes are prevented from operating on protected candidates unless explicit permission is given."@, 36),
{
    reveal_strlit("Protection is separate from exclusion. An excluded path is not scanned. A protected path may still be scanned and reported, but action modes are prevented from operating on protected candidates unless explicit permission is given.");
    assert forall|i: int| 0 <= i && i + 36 < "Protection is separate from exclusion. An excluded path is not scanned. A protected path may still be scanned and reported, but action modes are prevented from operating on protected candidates unless explicit permission is given."@.len() implies #[trigger] space_within("Protection is separate from exclusion. An excluded path is not scanned. A protected path may still be scanned and reported, but action modes are prevented from operating on protected candidates unless explicit permission is given."@, i, 36) by {
        if i <= 27 {
            assert(is_white_space("Protection is separate from exclusion. An excluded path is not scanned. A protected path may still be scanned and reported, but action modes are prevented from operating on protected candidates unless explicit permission is given."@[27]));
        } else if i <= 62 {
            assert(is_white_space("Protection is separate from exclusion. An excluded path is not scanned. A protected path may still be scanned and reported, but action modes are prevented from operating on protected candidates unless explicit permission is given."@[62]));
        } else if i <= 98 {
            assert(is_white_space("Protection is separate from exclusion. An excluded path is not scanned. A protected path may still be scanned and reported, but action modes are prevented from operating on protected candidates unless explicit permission is given."@[98]));
        } else if i <= 134 {
            assert(is_white_space("Protection is separate from exclusion. An excluded path is not scanned. A protected path may still be scanned and reported, but action modes are prevented from operating on protected candidates unless explicit permission is given."@[134]));
        } else if i <= 169 {
            assert(is_white_space("Protection is separate from exclusion. An excluded path is not scanned. A protected path may still be scanned and reported, but action modes are prevented from operating on protected candidates unless explicit permission is given."@[169]));
        } else if true {
            assert(is_white_space("Protection is separate from exclusion. An excluded path is not scanned. A protected path may still be scanned and reported, but action modes are prevented from operating on protected candidates unless explicit permission is given."@[200]));
        }
    }
}

#[verifier::spinoff_prover]
proof fn lemma_runs_52()
    ensures
        short_runs("to add one or more protected path trees for the current command."@, 36),
{
    reveal_strlit("to add one or more protected path trees for the current command.");
    assert forall|i: int| 0 <= i && i + 36 < "to add one or more protected path trees for the current command."@.len() implies #[trigger] space_within("to add one or more protected path trees for the current command."@, i, 36) by {
        {
            assert(is_white_space("to add one or more protected path trees for the current command."@[33]));
        }
    }
}

#[verifier::spinoff_prover]
proof fn lemma_runs_53()
    ensures
        short_runs("nk ~ -R --min-size 100M --protect ~/.sensitive"@, 36),
{
    reveal_strlit("nk ~ -R --min-size 100M --protect ~/.sensitive");
    assert forall|i: int| 0 <= i && i + 36 < "nk ~ -R --min-size 100M --protect ~/.sensitive"@.len() implies #[trigger] space_within("nk ~ -R --min-size 100M --protect ~/.sensitive"@, i, 36) by {
        {
            assert(is_white_space("nk ~ -R --min-size 100M --protect ~/.sensitive"@[33]));
        }
    }
}

#[verifier::spinoff_prover]
proof fn lemma_runs_54()
    ensures
        short_runs("The protected tree remains visible to classification and reporting. Protection becomes decisive when"@, 36),
{
    reveal_strlit("The protected tree remains visible to classification and reporting. Protection becomes decisive when");
    assert forall|i: int| 0 <= i && i + 36 < "The protected tree remains visible to classification and reporting. Protection becomes decisive when"@.len() implies #[trigger] space_within("The protected tree remains visible to classification and reporting. Protection becomes decisive when"@, i, 36) by {
        if i <= 34 {
            assert(is_white_space("The protected tree remains visible to classification and reporting. Protection becomes decisive when"@[34]));
        } else if true {
            assert(is_white_space("The protected tree remains visible to classification and reporting. Protection becomes decisive when"@[67]));
        }
    }
}

#[verifier::spinoff_prover]
proof fn lemma_runs_55()
    ensures
        short_runs("would act on a protected removable candidate."@, 36),
{
    reveal_strlit("would act on a protected removable candidate.");
    assert forall|i: int| 0 <= i && i + 36 < "would act on a protected removable candidate."@.len() implies #[trigger] space_within("would act on a protected removable candidate."@, i, 36) by {
        {
            assert(is_white_space("would act on a protected removable candidate."@[34]));
        }
    }
}

#[verifier::spinoff_prover]
proof fn lemma_runs_56()
    ensures
        short_runs("If a protected removable candidate is found during an action mode, Nightkrawler performs a safety stop unless"@, 36),
{
    reveal_strlit("If a protected removable candidate is found during an action mode, Nightkrawler performs a safety stop unless");
    assert forall|i: int| 0 <= i && i + 36 < "If a protected removable candidate is found during an action mode, Nightkrawler performs a safety stop unless"@.len() implies #[trigger] space_within("If a protected removable candidate is found during an action mode, Nightkrawler performs a safety stop unless"@, i, 36) by {
        if i <= 34 {
            assert(is_white_space("If a protected removable candidate is found during an action mode, Nightkrawler performs a safety stop unless"@[34]));
        } else if i <= 66 {
            assert(is_white_space("If a protected removable candidate is found during an action mode, Nightkrawler performs a safety stop unless"@[66]));
        } else if true {
            assert(is_white_space("If a protected removable candidate is found during an action mode, Nightkrawler performs a safety stop unless"@[102]));
        }
    }
}

#[verifier::spinoff_prover]
proof fn lemma_runs_57()
    ensures
        short_runs("The safety stop identifies the protected candidate, the matching protected root, and the scan path. Original files are not changed by the refused action."@, 36),
{
    reveal_strlit("The safety stop identifies the protected candidate, the matching protected root, and the scan path. Original files are not changed by the refused action.");
    assert forall|i: int| 0 <= i && i + 36 < "The safety stop identifies the protected candidate, the matching protected root, and the scan path. Original files are not changed by the refused action."@.len() implies #[trigger] space_within("The safety stop identifies the protected candidate, the matching protected root, and the scan path. Original files are not changed by the refused action."@, i, 36) by {
        if i <= 30 {
            assert(is_white_space("The safety stop identifies the protected candidate, the matching protected root, and the scan path. Original files are not changed by the refused action."@[30]));
        } else if i <= 64 {
            assert(is_white_space("The safety stop identifies the protected candidate, the matching protected root, and the scan path. Original files are not changed by the refused action."@[64]));
        } else if i <= 99 {
            assert(is_white_space("The safety stop identifies the protected candidate, the matching protected root, and the scan path. Original files are not changed by the refused action."@[99]));
        } else if true {
            assert(is_white_space("The safety stop identifies the protected candidate, the matching protected root, and the scan path. Original files are not changed by the refused action."@[133]));
        }
    }
}

#[verifier::spinoff_prover]
proof fn lemma_runs_58()
    ensures
        short_runs("is therefore an explicit override. It should be used only when action on the protected candidates is intentional."@, 36),
{
    reveal_strlit("is therefore an explicit override. It should be used only when action on the protected candidates is intentional.");
    assert forall|i: int| 0 <= i && i + 36 < "is therefore an explicit override. It should be used only when action on the protected candidates is intentional."@.len() implies #[trigger] space_within("is therefore an explicit override. It should be used only when action on the protected candidates is intentional."@, i, 36) by {
        if i <= 34 {
            assert(is_white_space("is therefore an explicit override. It should be used only when action on the protected candidates is intentional."@[34]));
        } else if i <= 69 {
            assert(is_white_space("is therefore an explicit override. It should be used only when action on the protected candidates is intentional."@[69]));
        } else if true {
            assert(is_white_space("is therefore an explicit override. It should be used only when action on the protected candidates is intentional."@[100]));
        }
    }
}

#[verifier::spinoff_prover]
proof fn lemma_runs_59()
    ensures
        short_runs("is still useful because the classification and generated report will identify matching groups as protected."@, 36),
{
    reveal_strlit("is still useful because the classification and generated report will identify matching groups as protected.");
    assert forall|i: int| 0 <= i && i + 36 < "is still useful because the classification and generated report will identify matching groups as protected."@.len() implies #[trigger] space_within("is still useful because the classification and generated report will identify matching groups as protected."@, i, 36) by {
        if i <= 27 {
            assert(is_white_space("is still useful because the classification and generated report will identify matching groups as protected."@[27]));
        } else if i <= 63 {
            assert(is_white_space("is still useful because the classification and generated report will identify matching groups as protected."@[63]));
        } else if true {
            assert(is_white_space("is still useful because the classification and generated report will identify matching groups as protected."@[96]));
        }
    }
}

#[verifier::spinoff_prover]
proof fn lemma_runs_60()
    ensures
        short_runs("Without an action mode, a scan is report-only."@, 36),
{
    reveal_strlit("Without an action mode, a scan is report-only.");
    assert forall|i: int| 0 <= i && i + 36 < "Without an action mode, a scan is report-only."@.len() implies #[trigger] space_within("Without an action mode, a scan is report-only."@, i, 36) by {
        {
            assert(is_white_space("Without an action mode, a scan is report-only."@[33]));
        }
    }
}

#[verifier::spinoff_prover]
proof fn lemma_runs_61()
    ensures
        short_runs("Copies removable duplicates into a quarantine directory while leaving the original files in place."@, 36),
{
    reveal_strlit("Copies removable duplicates into a quarantine directory while leaving the original files in place.");
    assert forall|i: int| 0 <= i && i + 36 < "Copies removable duplicates into a quarantine directory while leaving the original files in place."@.len() implies #[trigger] space_within("Copies removable duplicates into a quarantine directory while leaving the original files in place."@, i, 36) by {
        if i <= 34 {
            assert(is_white_space("Copies removable duplicates into a quarantine directory while leaving the original files in place."@[34]));
        } else if true {
            assert(is_white_space("Copies removable duplicates into a quarantine directory while leaving the original files in place."@[69]));
        }
    }
}

#[verifier::spinoff_prover]
proof fn lemma_runs_62()
    ensures
        short_runs("Moves removable duplicates to the system Trash implementation."@, 36),
{
    reveal_strlit("Moves removable duplicates to the system Trash implementation.");
    assert forall|i: int| 0 <= i && i + 36 < "Moves removable duplicates to the system Trash implementation."@.len() implies #[trigger] space_within("Moves removable duplicates to the system Trash implementation."@, i, 36) by {
        {
            assert(is_white_space("Moves removable duplicates to the system Trash implementation."@[33]));
        }
    }
}

#[verifier::spinoff_prover]
proof fn lemma_runs_63()
    ensures
        short_runs("Permanently removes removable duplicate files from their original locations."@, 36),
{
    reveal_strlit("Permanently removes removable duplicate files from their original locations.");
    assert forall|i: int| 0 <= i && i + 36 < "Permanently removes removable duplicate files from their original locations."@.len() implies #[trigger] space_within("Permanently removes removable duplicate files from their original locations."@, i, 36) by {
        if i <= 29 {
            assert(is_white_space("Permanently removes removable duplicate files from their original locations."@[29]));
        } else if true {
            assert(is_white_space("Permanently removes removable duplicate files from their original locations."@[65]));
        }
    }
}

#[verifier::spinoff_prover]
proof fn lemma_runs_64()
    ensures
        short_runs("are mutually exclusive. Choose one destructive action for a scan."@, 36),
{
    reveal_strlit("are mutually exclusive. Choose one destructive action for a scan.");
    assert forall|i: int| 0 <= i && i + 36 < "are mutually exclusive. Choose one destructive action for a scan."@.len() implies #[trigger] space_within("are mutually exclusive. Choose one destructive action for a scan."@, i, 36) by {
        {
            assert(is_white_space("are mutually exclusive. Choose one destructive action for a scan."@[34]));
        }
    }
}

#[verifier::spinoff_prover]
proof fn lemma_runs_65()
    ensures
        short_runs("In that workflow, Nightkrawler creates the quarantine copies before changing the originals."@, 36),
{
    reveal_strlit("In that workflow, Nightkrawler creates the quarantine copies before changing the originals.");
    assert forall|i: int| 0 <= i && i + 36 < "In that workflow, Nightkrawler creates the quarantine copies before changing the originals."@.len() implies #[trigger] space_within("In that workflow, Nightkrawler creates the quarantine copies before changing the originals."@, i, 36) by {
        if i <= 30 {
            assert(is_white_space("In that workflow, Nightkrawler creates the quarantine copies before changing the originals."@[30]));
        } else if true {
            assert(is_white_space("In that workflow, Nightkrawler creates the quarantine copies before changing the originals."@[67]));
        }
    }
}

#[verifier::spinoff_prover]
proof fn lemma_runs_66()
    ensures
        short_runs("to ask before each destructive action. It does not make quarantine copying interactive."@, 36),
{
    reveal_strlit("to ask before each destructive action. It does not make quarantine copying interactive.");
    assert forall|i: int| 0 <= i && i + 36 < "to ask before each destructive action. It does not make quarantine copying interactive."@.len() implies #[trigger] space_within("to ask before each destructive action. It does not make quarantine copying interactive."@, i, 36) by {
        if i <= 30 {
            assert(is_white_space("to ask before each destructive action. It does not make quarantine copying interactive."@[30]));
        } else if true {
            assert(is_white_space("to ask before each destructive action. It does not make quarantine copying interactive."@[66]));
        }
    }
}

#[verifier::spinoff_prover]
proof fn lemma_runs_67()
    ensures
        short_runs("Quarantine is Nightkrawler's recoverable copy stage. Use"@, 36),
{
    reveal_strlit("Quarantine is Nightkrawler's recoverable copy stage. Use");
    assert forall|i: int| 0 <= i && i + 36 < "Quarantine is Nightkrawler's recoverable copy stage. Use"@.len() implies #[trigger] space_within("Quarantine is Nightkrawler's recoverable copy stage. Use"@, i, 36) by {
        {
            assert(is_white_space("Quarantine is Nightkrawler's recoverable copy stage. Use"@[28]));
        }
    }
}

#[verifier::spinoff_prover]
proof fn lemma_runs_68()
    ensures
        short_runs("followed by the directory where removable duplicate copies should be stored."@, 36),
{
    reveal_strlit("followed by the directory where removable duplicate copies should be stored.");
    assert forall|i: int| 0 <= i && i + 36 < "followed by the directory where removable duplicate copies should be stored."@.len() implies #[trigger] space_within("followed by the directory where removable duplicate copies should be stored."@, i, 36) by {
        if i <= 31 {
            assert(is_white_space("followed by the directory where removable duplicate copies should be stored."@[31]));
        } else if true {
            assert(is_white_space("followed by the directory where removable duplicate copies should be stored."@[68]));
        }
    }
}

#[verifier::spinoff_prover]
proof fn lemma_runs_69()
    ensures
        short_runs("nk ~/Downloads -R --min-size 100M -q ~/nk-quarantine"@, 36),
{
    reveal_strlit("nk ~/Downloads -R --min-size 100M -q ~/nk-quarantine");
    assert forall|i: int| 0 <= i && i + 36 < "nk ~/Downloads -R --min-size 100M -q ~/nk-quarantine"@.len() implies #[trigger] space_within("nk ~/Downloads -R --min-size 100M -q ~/nk-quarantine"@, i, 36) by {
        {
            assert(is_white_space("nk ~/Downloads -R --min-size 100M -q ~/nk-quarantine"@[36]));
        }
    }
}

#[verifier::spinoff_prover]
proof fn lemma_runs_70()
    ensures
        short_runs("Nightkrawler preserves the scanned path structure below the quarantine directory where possible. If a destination name already exists, a unique Nightkrawler suffix is added rather than overwriting the existing quarantine file."@, 36),
{
    reveal_strlit("Nightkrawler preserves the scanned path structure below the quarantine directory where possible. If a destination name already exists, a unique Nightkrawler suffix is added rather than overwriting the existing quarantine file.");
    assert forall|i: int| 0 <= i && i + 36 < "Nightkrawler preserves the scanned path structure below the quarantine directory where possible. If a destination name already exists, a unique Nightkrawler suffix is added rather than overwriting the existing quarantine file."@.len() implies #[trigger] space_within("Nightkrawler preserves the scanned path structure below the quarantine directory where possible. If a destination name already exists, a unique Nightkrawler suffix is added rather than overwriting the existing quarantine file."@, i, 36) by {
        if i <= 34 {
            assert(is_white_space("Nightkrawler preserves the scanned path structure below the quarantine directory where possible. If a destination name already exists, a unique Nightkrawler suffix is added rather than overwriting the existing quarantine file."@[34]));
        } else if i <= 70 {
            assert(is_white_space("Nightkrawler preserves the scanned path structure below the quarantine directory where possible. If a destination name already exists, a unique Nightkrawler suffix is added rather than overwriting the existing quarantine file."@[70]));
        } else if i <= 101 {
            assert(is_white_space("Nightkrawler preserves the scanned path structure below the quarantine directory where possible. If a destination name already exists, a unique Nightkrawler suffix is added rather than overwriting the existing quarantine file."@[101]));
        } else if i <= 136 {
            assert(is_white_space("Nightkrawler preserves the scanned path structure below the quarantine directory where possible. If a destination name already exists, a unique Nightkrawler suffix is added rather than overwriting the existing quarantine file."@[136]));
        } else if i <= 172 {
            assert(is_white_space("Nightkrawler preserves the scanned path structure below the quarantine directory where possible. If a destination name already exists, a unique Nightkrawler suffix is added rather than overwriting the existing quarantine file."@[172]));
        } else if true {
            assert(is_white_space("Nightkrawler preserves the scanned path structure below the quarantine directory where possible. If a destination name already exists, a unique Nightkrawler suffix is added rather than overwriting the existing quarantine file."@[209]));
        }
    }
}

#[verifier::spinoff_prover]
proof fn lemma_runs_71()
    ensures
        short_runs("Before copying begins, Nightkrawler calculates the total size of the removable duplicates and checks the available free space on the filesystem containing the quarantine directory."@, 36),
{
    reveal_strlit("Before copying begins, Nightkrawler calculates the total size of the removable duplicates and checks the available free space on the filesystem containing the quarantine directory.");
    assert forall|i: int| 0 <= i && i + 36 < "Before copying begins, Nightkrawler calculates the total size of the removable duplicates and checks the available free space on the filesystem containing the quarantine directory."@.len() implies #[trigger] space_within("Before copying begins, Nightkrawler calculates the total size of the removable duplicates and checks the available free space on the filesystem containing the quarantine directory."@, i, 36) by {
        if i <= 35 {
            assert(is_white_space("Before copying begins, Nightkrawler calculates the total size of the removable duplicates and checks the available free space on the filesystem containing the quarantine directory."@[35]));
        } else if i <= 68 {
            assert(is_white_space("Before copying begins, Nightkrawler calculates the total size of the removable duplicates and checks the available free space on the filesystem containing the quarantine directory."@[68]));
        } else if i <= 104 {
            assert(is_white_space("Before copying begins, Nightkrawler calculates the total size of the removable duplicates and checks the available free space on the filesystem containing the quarantine directory."@[104]));
        } else if i <= 132 {
            assert(is_white_space("Before copying begins, Nightkrawler calculates the total size of the removable duplicates and checks the available free space on the filesystem containing the quarantine directory."@[132]));
        } else if true {
            assert(is_white_space("Before copying begins, Nightkrawler calculates the total size of the removable duplicates and checks the available free space on the filesystem containing the quarantine directory."@[169]));
        }
    }
}

#[verifier::spinoff_prover]
proof fn lemma_runs_72()
    ensures
        short_runs("If there is not enough free space, quarantine is refused before files are copied."@, 36),
{
    reveal_strlit("If there is not enough free space, quarantine is refused before files are copied.");
    assert forall|i: int| 0 <= i && i + 36 < "If there is not enough free space, quarantine is refused before files are copied."@.len() implies #[trigger] space_within("If there is not enough free space, quarantine is refused before files are copied."@, i, 36) by {
        if i <= 34 {
            assert(is_white_space("If there is not enough free space, quarantine is refused before files are copied."@[34]));
        } else if true {
            assert(is_white_space("If there is not enough free space, quarantine is refused before files are copied."@[69]));
        }
    }
}

#[verifier::spinoff_prover]
proof fn lemma_runs_73()
    ensures
        short_runs("A quarantine manifest records the original path, quarantine path, and size of each copied file. The current manifest format stores Unix pathnames as their original bytes rather than relying on tab- or newline-separated text fields."@, 36),
{
    reveal_strlit("A quarantine manifest records the original path, quarantine path, and size of each copied file. The current manifest format stores Unix pathnames as their original bytes rather than relying on tab- or newline-separated text fields.");
    assert forall|i: int| 0 <= i && i + 36 < "A quarantine manifest records the original path, quarantine path, and size of each copied file. The current manifest format stores Unix pathnames as their original bytes rather than relying on tab- or newline-separated text fields."@.len() implies #[trigger] space_within("A quarantine manifest records the original path, quarantine path, and size of each copied file. The current manifest format stores Unix pathnames as their original bytes rather than relying on tab- or newline-separated text fields."@, i, 36) by {
        if i <= 33 {
            assert(is_white_space("A quarantine manifest records the original path, quarantine path, and size of each copied file. The current manifest format stores Unix pathnames as their original bytes rather than relying on tab- or newline-separated text fields."@[33]));
        } else if i <= 69 {
            assert(is_white_space("A quarantine manifest records the original path, quarantine path, and size of each copied file. The current manifest format stores Unix pathnames as their original bytes rather than relying on tab- or newline-separated text fields."@[69]));
        } else if i <= 99 {
            assert(is_white_space("A quarantine manifest records the original path, quarantine path, and size of each copied file. The current manifest format stores Unix pathnames as their original bytes rather than relying on tab- or newline-separated text fields."@[99]));
        } else if i <= 135 {
            assert(is_white_space("A quarantine manifest records the original path, quarantine path, and size of each copied file. The current manifest format stores Unix pathnames as their original bytes rather than relying on tab- or newline-separated text fields."@[135]));
        } else if i <= 169 {
            assert(is_white_space("A quarantine manifest records the original path, quarantine path, and size of each copied file. The current manifest format stores Unix pathnames as their original bytes rather than relying on tab- or newline-separated text fields."@[169]));
        } else if true {
            assert(is_white_space("A quarantine manifest records the original path, quarantine path, and size of each copied file. The current manifest format stores Unix pathnames as their original bytes rather than relying on tab- or newline-separated text fields."@[200]));
        }
    }
}

#[verifier::spinoff_prover]
proof fn lemma_runs_74()
    ensures
        short_runs("This allows valid Unix filenames containing tabs, newlines, spaces, or non-UTF-8 pathname bytes to be represented without using those characters as field separators."@, 36),
{
    reveal_strlit("This allows valid Unix filenames containing tabs, newlines, spaces, or non-UTF-8 pathname bytes to be represented without using those characters as field separators.");
    assert forall|i: int| 0 <= i && i + 36 < "This allows valid Unix filenames containing tabs, newlines, spaces, or non-UTF-8 pathname bytes to be represented without using those characters as field separators."@.len() implies #[trigger] space_within("This allows valid Unix filenames containing tabs, newlines, spaces, or non-UTF-8 pathname bytes to be represented without using those characters as field separators."@, i, 36) by {
        if i <= 32 {
            assert(is_white_space("This allows valid Unix filenames containing tabs, newlines, spaces, or non-UTF-8 pathname bytes to be represented without using those characters as field separators."@[32]));
        } else if i <= 67 {
            assert(is_white_space("This allows valid Unix filenames containing tabs, newlines, spaces, or non-UTF-8 pathname bytes to be represented without using those characters as field separators."@[67]));
        } else if i <= 101 {
            assert(is_white_space("This allows valid Unix filenames containing tabs, newlines, spaces, or non-UTF-8 pathname bytes to be represented without using those characters as field separators."@[101]));
        } else if true {
            assert(is_white_space("This allows valid Unix filenames containing tabs, newlines, spaces, or non-UTF-8 pathname bytes to be represented without using those characters as field separators."@[133]));
        }
    }
}

#[verifier::spinoff_prover]
proof fn lemma_runs_75()
    ensures
        short_runs("the destructive stage is allowed to proceed only if all intended quarantine copies completed successfully."@, 36),
{
    reveal_strlit("the destructive stage is allowed to proceed only if all intended quarantine copies completed successfully.");
    assert forall|i: int| 0 <= i && i + 36 < "the destructive stage is allowed to proceed only if all intended quarantine copies completed successfully."@.len() implies #[trigger] space_within("the destructive stage is allowed to proceed only if all intended quarantine copies completed successfully."@, i, 36) by {
        if i <= 35 {
            assert(is_white_space("the destructive stage is allowed to proceed only if all intended quarantine copies completed successfully."@[35]));
        } else if i <= 64 {
            assert(is_white_space("the destructive stage is allowed to proceed only if all intended quarantine copies completed successfully."@[64]));
        } else if true {
            assert(is_white_space("the destructive stage is allowed to proceed only if all intended quarantine copies completed successfully."@[92]));
        }
    }
}

#[verifier::spinoff_prover]
proof fn lemma_runs_76()
    ensures
        short_runs("If quarantine copying fails or is incomplete, Nightkrawler performs a safety stop and refuses the Trash or delete stage. Original files are left unchanged by the refused destructive action."@, 36),
{
    reveal_strlit("If quarantine copying fails or is incomplete, Nightkrawler performs a safety stop and refuses the Trash or delete stage. Original files are left unchanged by the refused destructive action.");
    assert forall|i: int| 0 <= i && i + 36 < "If quarantine copying fails or is incomplete, Nightkrawler performs a safety stop and refuses the Trash or delete stage. Original files are left unchanged by the refused destructive action."@.len() implies #[trigger] space_within("If quarantine copying fails or is incomplete, Nightkrawler performs a safety stop and refuses the Trash or delete stage. Original files are left unchanged by the refused destructive action."@, i, 36) by {
        if i <= 33 {
            assert(is_white_space("If quarantine copying fails or is incomplete, Nightkrawler performs a safety stop and refuses the Trash or delete stage. Original files are left unchanged by the refused destructive action."@[33]));
        } else if i <= 69 {
            assert(is_white_space("If quarantine copying fails or is incomplete, Nightkrawler performs a safety stop and refuses the Trash or delete stage. Original files are left unchanged by the refused destructive action."@[69]));
        } else if i <= 106 {
            assert(is_white_space("If quarantine copying fails or is incomplete, Nightkrawler performs a safety stop and refuses the Trash or delete stage. Original files are left unchanged by the refused destructive action."@[106]));
        } else if i <= 139 {
            assert(is_white_space("If quarantine copying fails or is incomplete, Nightkrawler performs a safety stop and refuses the Trash or delete stage. Original files are left unchanged by the refused destructive action."@[139]));
        } else if true {
            assert(is_white_space("If quarantine copying fails or is incomplete, Nightkrawler performs a safety stop and refuses the Trash or delete stage. Original files are left unchanged by the refused destructive action."@[169]));
        }
    }
}

#[verifier::spinoff_prover]
proof fn lemma_runs_77()
    ensures
        short_runs("Restores files recorded in a Nightkrawler quarantine manifest to their original paths."@, 36),
{
    reveal_strlit("Restores files recorded in a Nightkrawler quarantine manifest to their original paths.");
    assert forall|i: int| 0 <= i && i + 36 < "Restores files recorded in a Nightkrawler quarantine manifest to their original paths."@.len() implies #[trigger] space_within("Restores files recorded in a Nightkrawler quarantine manifest to their original paths."@, i, 36) by {
        if i <= 28 {
            assert(is_white_space("Restores files recorded in a Nightkrawler quarantine manifest to their original paths."@[28]));
        } else if true {
            assert(is_white_space("Restores files recorded in a Nightkrawler quarantine manifest to their original paths."@[64]));
        }
    }
}

#[verifier::spinoff_prover]
proof fn lemma_runs_78()
    ensures
        short_runs("If the original path already exists, that record is skipped rather than overwritten."@, 36),
{
    reveal_strlit("If the original path already exists, that record is skipped rather than overwritten.");
    assert forall|i: int| 0 <= i && i + 36 < "If the original path already exists, that record is skipped rather than overwritten."@.len() implies #[trigger] space_within("If the original path already exists, that record is skipped rather than overwritten."@, i, 36) by {
        if i <= 36 {
            assert(is_white_space("If the original path already exists, that record is skipped rather than overwritten."@[36]));
        } else if true {
            assert(is_white_space("If the original path already exists, that record is skipped rather than overwritten."@[71]));
        }
    }
}

#[verifier::spinoff_prover]
proof fn lemma_runs_79()
    ensures
        short_runs("If the original parent directory no longer exists, Nightkrawler recreates the required directory path before restoring the file."@, 36),
{
    reveal_strlit("If the original parent directory no longer exists, Nightkrawler recreates the required directory path before restoring the file.");
    assert forall|i: int| 0 <= i && i + 36 < "If the original parent directory no longer exists, Nightkrawler recreates the required directory path before restoring the file."@.len() implies #[trigger] space_within("If the original parent directory no longer exists, Nightkrawler recreates the required directory path before restoring the file."@, i, 36) by {
        if i <= 35 {
            assert(is_white_space("If the original parent directory no longer exists, Nightkrawler recreates the required directory path before restoring the file."@[35]));
        } else if i <= 63 {
            assert(is_white_space("If the original parent directory no longer exists, Nightkrawler recreates the required directory path before restoring the file."@[63]));
        } else if true {
            assert(is_white_space("If the original parent directory no longer exists, Nightkrawler recreates the required directory path before restoring the file."@[96]));
        }
    }
}

#[verifier::spinoff_prover]
proof fn lemma_runs_80()
    ensures
        short_runs("Restore copies files back to their original locations. The quarantine remains available until it is cleaned separately."@, 36),
{
    reveal_strlit("Restore copies files back to their original locations. The quarantine remains available until it is cleaned separately.");
    assert forall|i: int| 0 <= i && i + 36 < "Restore copies files back to their original locations. The quarantine remains available until it is cleaned separately."@.len() implies #[trigger] space_within("Restore copies files back to their original locations. The quarantine remains available until it is cleaned separately."@, i, 36) by {
        if i <= 34 {
            assert(is_white_space("Restore copies files back to their original locations. The quarantine remains available until it is cleaned separately."@[34]));
        } else if i <= 69 {
            assert(is_white_space("Restore copies files back to their original locations. The quarantine remains available until it is cleaned separately."@[69]));
        } else if true {
            assert(is_white_space("Restore copies files back to their original locations. The quarantine remains available until it is cleaned separately."@[99]));
        }
    }
}

#[verifier::spinoff_prover]
proof fn lemma_runs_81()
    ensures
        short_runs("Removes a recognized Nightkrawler quarantine directory after it is no longer needed."@, 36),
{
    reveal_strlit("Removes a recognized Nightkrawler quarantine directory after it is no longer needed.");
    assert forall|i: int| 0 <= i && i + 36 < "Removes a recognized Nightkrawler quarantine directory after it is no longer needed."@.len() implies #[trigger] space_within("Removes a recognized Nightkrawler quarantine directory after it is no longer needed."@, i, 36) by {
        if i <= 33 {
            assert(is_white_space("Removes a recognized Nightkrawler quarantine directory after it is no longer needed."@[33]));
        } else if true {
            assert(is_white_space("Removes a recognized Nightkrawler quarantine directory after it is no longer needed."@[69]));
        }
    }
}

#[verifier::spinoff_prover]
proof fn lemma_runs_82()
    ensures
        short_runs("Cleanup is deliberately guarded against dangerous targets. Nightkrawler refuses to clean the filesystem root, the user's home directory, or the current working directory."@, 36),
{
    reveal_strlit("Cleanup is deliberately guarded against dangerous targets. Nightkrawler refuses to clean the filesystem root, the user's home directory, or the current working directory.");
    assert forall|i: int| 0 <= i && i + 36 < "Cleanup is deliberately guarded against dangerous targets. Nightkrawler refuses to clean the filesystem root, the user's home directory, or the current working directory."@.len() implies #[trigger] space_within("Cleanup is deliberately guarded against dangerous targets. Nightkrawler refuses to clean the filesystem root, the user's home directory, or the current working directory."@, i, 36) by {
        if i <= 31 {
            assert(is_white_space("Cleanup is deliberately guarded against dangerous targets. Nightkrawler refuses to clean the filesystem root, the user's home directory, or the current working directory."@[31]));
        } else if i <= 58 {
            assert(is_white_space("Cleanup is deliberately guarded against dangerous targets. Nightkrawler refuses to clean the filesystem root, the user's home directory, or the current working directory."@[58]));
        } else if i <= 92 {
            assert(is_white_space("Cleanup is deliberately guarded against dangerous targets. Nightkrawler refuses to clean the filesystem root, the user's home directory, or the current working directory."@[92]));
        } else if i <= 125 {
            assert(is_white_space("Cleanup is deliberately guarded against dangerous targets. Nightkrawler refuses to clean the filesystem root, the user's home directory, or the current working directory."@[125]));
        } else if true {
            assert(is_white_space("Cleanup is deliberately guarded against dangerous targets. Nightkrawler refuses to clean the filesystem root, the user's home directory, or the current working directory."@[159]));
        }
    }
}

#[verifier::spinoff_prover]
proof fn lemma_runs_83()
    ensures
        short_runs("A missing or empty quarantine is treated as having nothing to clean rather than as a destructive cleanup operation."@, 36),
{
    reveal_strlit("A missing or empty quarantine is treated as having nothing to clean rather than as a destructive cleanup operation.");
    assert forall|i: int| 0 <= i && i + 36 < "A missing or empty quarantine is treated as having nothing to clean rather than as a destructive cleanup operation."@.len() implies #[trigger] space_within("A missing or empty quarantine is treated as having nothing to clean rather than as a destructive cleanup operation."@, i, 36) by {
        if i <= 32 {
            assert(is_white_space("A missing or empty quarantine is treated as having nothing to clean rather than as a destructive cleanup operation."@[32]));
        } else if i <= 67 {
            assert(is_white_space("A missing or empty quarantine is treated as having nothing to clean rather than as a destructive cleanup operation."@[67]));
        } else if true {
            assert(is_white_space("A missing or empty quarantine is treated as having nothing to clean rather than as a destructive cleanup operation."@[104]));
        }
    }
}

#[verifier::spinoff_prover]
proof fn lemma_runs_84()
    ensures
        short_runs("Before removing a populated directory, cleanup verifies that the directory contains a recognized Nightkrawler quarantine manifest."@, 36),
{
    reveal_strlit("Before removing a populated directory, cleanup verifies that the directory contains a recognized Nightkrawler quarantine manifest.");
    assert forall|i: int| 0 <= i && i + 36 < "Before removing a populated directory, cleanup verifies that the directory contains a recognized Nightkrawler quarantine manifest."@.len() implies #[trigger] space_within("Before removing a populated directory, cleanup verifies that the directory contains a recognized Nightkrawler quarantine manifest."@, i, 36) by {
        if i <= 27 {
            assert(is_white_space("Before removing a populated directory, cleanup verifies that the directory contains a recognized Nightkrawler quarantine manifest."@[27]));
        } else if i <= 64 {
            assert(is_white_space("Before removing a populated directory, cleanup verifies that the directory contains a recognized Nightkrawler quarantine manifest."@[64]));
        } else if true {
            assert(is_white_space("Before removing a populated directory, cleanup verifies that the directory contains a recognized Nightkrawler quarantine manifest."@[96]));
        }
    }
}

#[verifier::spinoff_prover]
proof fn lemma_runs_85()
    ensures
        short_runs("When duplicate groups are found, Nightkrawler writes a detailed text report after processing the scan."@, 36),
{
    reveal_strlit("When duplicate groups are found, Nightkrawler writes a detailed text report after processing the scan.");
    assert forall|i: int| 0 <= i && i + 36 < "When duplicate groups are found, Nightkrawler writes a detailed text report after processing the scan."@.len() implies #[trigger] space_within("When duplicate groups are found, Nightkrawler writes a detailed text report after processing the scan."@, i, 36) by {
        if i <= 32 {
            assert(is_white_space("When duplicate groups are found, Nightkrawler writes a detailed text report after processing the scan."@[32]));
        } else if true {
            assert(is_white_space("When duplicate groups are found, Nightkrawler writes a detailed text report after processing the scan."@[68]));
        }
    }
}

#[verifier::spinoff_prover]
proof fn lemma_runs_86()
    ensures
        short_runs("the report is created in the current directory with an automatically generated filename."@, 36),
{
    reveal_strlit("the report is created in the current directory with an automatically generated filename.");
    assert forall|i: int| 0 <= i && i + 36 < "the report is created in the current directory with an automatically generated filename."@.len() implies #[trigger] space_within("the report is created in the current directory with an automatically generated filename."@, i, 36) by {
        if i <= 36 {
            assert(is_white_space("the report is created in the current directory with an automatically generated filename."@[36]));
        } else if true {
            assert(is_white_space("the report is created in the current directory with an automatically generated filename."@[68]));
        }
    }
}

#[verifier::spinoff_prover]
proof fn lemma_runs_87()
    ensures
        short_runs("points to an existing directory, Nightkrawler places an automatically named report inside that directory. Otherwise, the supplied path is used as the report filename."@, 36),
{
    reveal_strlit("points to an existing directory, Nightkrawler places an automatically named report inside that directory. Otherwise, the supplied path is used as the report filename.");
    assert forall|i: int| 0 <= i && i + 36 < "points to an existing directory, Nightkrawler places an automatically named report inside that directory. Otherwise, the supplied path is used as the report filename."@.len() implies #[trigger] space_within("points to an existing directory, Nightkrawler places an automatically named report inside that directory. Otherwise, the supplied path is used as the report filename."@, i, 36) by {
        if i <= 32 {
            assert(is_white_space("points to an existing directory, Nightkrawler places an automatically named report inside that directory. Otherwise, the supplied path is used as the report filename."@[32]));
        } else if i <= 69 {
            assert(is_white_space("points to an existing directory, Nightkrawler places an automatically named report inside that directory. Otherwise, the supplied path is used as the report filename."@[69]));
        } else if i <= 105 {
            assert(is_white_space("points to an existing directory, Nightkrawler places an automatically named report inside that directory. Otherwise, the supplied path is used as the report filename."@[105]));
        } else if true {
            assert(is_white_space("points to an existing directory, Nightkrawler places an automatically named report inside that directory. Otherwise, the supplied path is used as the report filename."@[142]));
        }
    }
}

#[verifier::spinoff_prover]
proof fn lemma_runs_88()
    ensures
        short_runs("Reports include scan date, operating system, architecture, hostname, scan duration, scan root, minimum size, recursive state, action mode, keeper policy, excluded paths, protected paths, duplicate groups, keeper paths, removable candidates, and reclaimable space."@, 36),
{
    reveal_strlit("Reports include scan date, operating system, architecture, hostname, scan duration, scan root, minimum size, recursive state, action mode, keeper policy, excluded paths, protected paths, duplicate groups, keeper paths, removable candidates, and reclaimable space.");
    assert forall|i: int| 0 <= i && i + 36 < "Reports include scan date, operating system, architecture, hostname, scan duration, scan root, minimum size, recursive state, action mode, keeper policy, excluded paths, protected paths, duplicate groups, keeper paths, removable candidates, and reclaimable space."@.len() implies #[trigger] space_within("Reports include scan date, operating system, architecture, hostname, scan duration, scan root, minimum size, recursive state, action mode, keeper policy, excluded paths, protected paths, duplicate groups, keeper paths, removable candidates, and reclaimable space."@, i, 36) by {
        if i <= 36 {
            assert(is_white_space("Reports include scan date, operating system, architecture, hostname, scan duration, scan root, minimum size, recursive state, action mode, keeper policy, excluded paths, protected paths, duplicate groups, keeper paths, removable candidates, and reclaimable space."@[36]));
        } else if i <= 73 {
            assert(is_white_space("Reports include scan date, operating system, architecture, hostname, scan duration, scan root, minimum size, recursive state, action mode, keeper policy, excluded paths, protected paths, duplicate groups, keeper paths, removable candidates, and reclaimable space."@[73]));
        } else if i <= 108 {
            assert(is_white_space("Reports include scan date, operating system, architecture, hostname, scan duration, scan root, minimum size, recursive state, action mode, keeper policy, excluded paths, protected paths, duplicate groups, keeper paths, removable candidates, and reclaimable space."@[108]));
        } else if i <= 145 {
            assert(is_white_space("Reports include scan date, operating system, architecture, hostname, scan duration, scan root, minimum size, recursive state, action mode, keeper policy, excluded paths, protected paths, duplicate groups, keeper paths, removable candidates, and reclaimable space."@[145]));
        } else if i <= 179 {
            assert(is_white_space("Reports include scan date, operating system, architecture, hostname, scan duration, scan root, minimum size, recursive state, action mode, keeper policy, excluded paths, protected paths, duplicate groups, keeper paths, removable candidates, and reclaimable space."@[179]));
        } else if i <= 211 {
            assert(is_white_space("Reports include scan date, operating system, architecture, hostname, scan duration, scan root, minimum size, recursive state, action mode, keeper policy, excluded paths, protected paths, duplicate groups, keeper paths, removable candidates, and reclaimable space."@[211]));
        } else if true {
            assert(is_white_space("Reports include scan date, operating system, architecture, hostname, scan duration, scan root, minimum size, recursive state, action mode, keeper policy, excluded paths, protected paths, duplicate groups, keeper paths, removable candidates, and reclaimable space."@[244]));
        }
    }
}

#[verifier::spinoff_prover]
proof fn lemma_runs_89()
    ensures
        short_runs("sections when those classifications are present."@, 36),
{
    reveal_strlit("sections when those classifications are present.");
    assert forall|i: int| 0 <= i && i + 36 < "sections when those classifications are present."@.len() implies #[trigger] space_within("sections when those classifications are present."@, i, 36) by {
        {
            assert(is_white_space("sections when those classifications are present."@[35]));
        }
    }
}

#[verifier::spinoff_prover]
proof fn lemma_runs_90()
    ensures
        short_runs("When quarantine was used, the report also records the number of copied files and the quarantine location."@, 36),
{
    reveal_strlit("When quarantine was used, the report also records the number of copied files and the quarantine location.");
    assert forall|i: int| 0 <= i && i + 36 < "When quarantine was used, the report also records the number of copied files and the quarantine location."@.len() implies #[trigger] space_within("When quarantine was used, the report also records the number of copied files and the quarantine location."@, i, 36) by {
        if i <= 36 {
            assert(is_white_space("When quarantine was used, the report also records the number of copied files and the quarantine location."@[36]));
        } else if true {
            assert(is_white_space("When quarantine was used, the report also records the number of copied files and the quarantine location."@[70]));
        }
    }
}

#[verifier::spinoff_prover]
proof fn lemma_runs_91()
    ensures
        short_runs("Nightkrawler is designed so that inspection and action remain separate. A normal scan reports duplicate candidates without changing files."@, 36),
{
    reveal_strlit("Nightkrawler is designed so that inspection and action remain separate. A normal scan reports duplicate candidates without changing files.");
    assert forall|i: int| 0 <= i && i + 36 < "Nightkrawler is designed so that inspection and action remain separate. A normal scan reports duplicate candidates without changing files."@.len() implies #[trigger] space_within("Nightkrawler is designed so that inspection and action remain separate. A normal scan reports duplicate candidates without changing files."@, i, 36) by {
        if i <= 32 {
            assert(is_white_space("Nightkrawler is designed so that inspection and action remain separate. A normal scan reports duplicate candidates without changing files."@[32]));
        } else if i <= 61 {
            assert(is_white_space("Nightkrawler is designed so that inspection and action remain separate. A normal scan reports duplicate candidates without changing files."@[61]));
        } else if i <= 93 {
            assert(is_white_space("Nightkrawler is designed so that inspection and action remain separate. A normal scan reports duplicate candidates without changing files."@[93]));
        } else if true {
            assert(is_white_space("Nightkrawler is designed so that inspection and action remain separate. A normal scan reports duplicate candidates without changing files."@[122]));
        }
    }
}

#[verifier::spinoff_prover]
proof fn lemma_runs_92()
    ensures
        short_runs("One file from every verified duplicate group is selected as the keeper. Trash and delete operate only on the remaining removable members."@, 36),
{
    reveal_strlit("One file from every verified duplicate group is selected as the keeper. Trash and delete operate only on the remaining removable members.");
    assert forall|i: int| 0 <= i && i + 36 < "One file from every verified duplicate group is selected as the keeper. Trash and delete operate only on the remaining removable members."@.len() implies #[trigger] space_within("One file from every verified duplicate group is selected as the keeper. Trash and delete operate only on the remaining removable members."@, i, 36) by {
        if i <= 28 {
            assert(is_white_space("One file from every verified duplicate group is selected as the keeper. Trash and delete operate only on the remaining removable members."@[28]));
        } else if i <= 63 {
            assert(is_white_space("One file from every verified duplicate group is selected as the keeper. Trash and delete operate only on the remaining removable members."@[63]));
        } else if i <= 96 {
            assert(is_white_space("One file from every verified duplicate group is selected as the keeper. Trash and delete operate only on the remaining removable members."@[96]));
        } else if true {
            assert(is_white_space("One file from every verified duplicate group is selected as the keeper. Trash and delete operate only on the remaining removable members."@[128]));
        }
    }
}

#[verifier::spinoff_prover]
proof fn lemma_runs_93()
    ensures
        short_runs("Nightkrawler does not follow symbolic links."@, 36),
{
    reveal_strlit("Nightkrawler does not follow symbolic links.");
    assert forall|i: int| 0 <= i && i + 36 < "Nightkrawler does not follow symbolic links."@.len() implies #[trigger] space_within("Nightkrawler does not follow symbolic links."@, i, 36) by {
        {
            assert(is_white_space("Nightkrawler does not follow symbolic links."@[28]));
        }
    }
}

#[verifier::spinoff_prover]
proof fn lemma_runs_94()
    ensures
        short_runs("Dot-directories are skipped recursively unless"@, 36),
{
    reveal_strlit("Dot-directories are skipped recursively unless");
    assert forall|i: int| 0 <= i && i + 36 < "Dot-directories are skipped recursively unless"@.len() implies #[trigger] space_within("Dot-directories are skipped recursively unless"@, i, 36) by {
        {
            assert(is_white_space("Dot-directories are skipped recursively unless"@[27]));
        }
    }
}

#[verifier::spinoff_prover]
proof fn lemma_runs_95()
    ensures
        short_runs("Protected removable candidates stop action modes unless"@, 36),
{
    reveal_strlit("Protected removable candidates stop action modes unless");
    assert forall|i: int| 0 <= i && i + 36 < "Protected removable candidates stop action modes unless"@.len() implies #[trigger] space_within("Protected removable candidates stop action modes unless"@, i, 36) by {
        {
            assert(is_white_space("Protected removable candidates stop action modes unless"@[35]));
        }
    }
}

#[verifier::spinoff_prover]
proof fn lemma_runs_96()
    ensures
        short_runs("Quarantine checks available space before copying. When quarantine precedes Trash or delete, the destructive stage is refused unless the quarantine copy completed cleanly."@, 36),
{
    reveal_strlit("Quarantine checks available space before copying. When quarantine precedes Trash or delete, the destructive stage is refused unless the quarantine copy completed cleanly.");
    assert forall|i: int| 0 <= i && i + 36 < "Quarantine checks available space before copying. When quarantine precedes Trash or delete, the destructive stage is refused unless the quarantine copy completed cleanly."@.len() implies #[trigger] space_within("Quarantine checks available space before copying. When quarantine precedes Trash or delete, the destructive stage is refused unless the quarantine copy completed cleanly."@, i, 36) by {
        if i <= 33 {
            assert(is_white_space("Quarantine checks available space before copying. When quarantine precedes Trash or delete, the destructive stage is refused unless the quarantine copy completed cleanly."@[33]));
        } else if i <= 65 {
            assert(is_white_space("Quarantine checks available space before copying. When quarantine precedes Trash or delete, the destructive stage is refused unless the quarantine copy completed cleanly."@[65]));
        } else if i <= 95 {
            assert(is_white_space("Quarantine checks available space before copying. When quarantine precedes Trash or delete, the destructive stage is refused unless the quarantine copy completed cleanly."@[95]));
        } else if i <= 131 {
            assert(is_white_space("Quarantine checks available space before copying. When quarantine precedes Trash or delete, the destructive stage is refused unless the quarantine copy completed cleanly."@[131]));
        } else if true {
            assert(is_white_space("Quarantine checks available space before copying. When quarantine precedes Trash or delete, the destructive stage is refused unless the quarantine copy completed cleanly."@[161]));
        }
    }
}

#[verifier::spinoff_prover]
proof fn lemma_runs_97()
    ensures
        short_runs("offers each removable candidate individually before Trash or permanent deletion."@, 36),
{
    reveal_strlit("offers each removable candidate individually before Trash or permanent deletion.");
    assert forall|i: int| 0 <= i && i + 36 < "offers each removable candidate individually before Trash or permanent deletion."@.len() implies #[trigger] space_within("offers each removable candidate individually before Trash or permanent deletion."@, i, 36) by {
        if i <= 31 {
            assert(is_white_space("offers each removable candidate individually before Trash or permanent deletion."@[31]));
        } else if true {
            assert(is_white_space("offers each removable candidate individually before Trash or permanent deletion."@[60]));
        }
    }
}

#[verifier::spinoff_prover]
proof fn lemma_runs_98()
    ensures
        short_runs("Restoration never overwrites an existing original path. Existing destinations are counted as skipped."@, 36),
{
    reveal_strlit("Restoration never overwrites an existing original path. Existing destinations are counted as skipped.");
    assert forall|i: int| 0 <= i && i + 36 < "Restoration never overwrites an existing original path. Existing destinations are counted as skipped."@.len() implies #[trigger] space_within("Restoration never overwrites an existing original path. Existing destinations are counted as skipped."@, i, 36) by {
        if i <= 31 {
            assert(is_white_space("Restoration never overwrites an existing original path. Existing destinations are counted as skipped."@[31]));
        } else if true {
            assert(is_white_space("Restoration never overwrites an existing original path. Existing destinations are counted as skipped."@[64]));
        }
    }
}

#[verifier::spinoff_prover]
proof fn lemma_runs_99()
    ensures
        short_runs("Cleanup contains additional target guards because removing an entire directory tree carries different risks from ordinary duplicate processing."@, 36),
{
    reveal_strlit("Cleanup contains additional target guards because removing an entire directory tree carries different risks from ordinary duplicate processing.");
    assert forall|i: int| 0 <= i && i + 36 < "Cleanup contains additional target guards because removing an entire directory tree carries different risks from ordinary duplicate processing."@.len() implies #[trigger] space_within("Cleanup contains additional target guards because removing an entire directory tree carries different risks from ordinary duplicate processing."@, i, 36) by {
        if i <= 34 {
            assert(is_white_space("Cleanup contains additional target guards because removing an entire directory tree carries different risks from ordinary duplicate processing."@[34]));
        } else if i <= 68 {
            assert(is_white_space("Cleanup contains additional target guards because removing an entire directory tree carries different risks from ordinary duplicate processing."@[68]));
        } else if i <= 101 {
            assert(is_white_space("Cleanup contains additional target guards because removing an entire directory tree carries different risks from ordinary duplicate processing."@[101]));
        } else if true {
            assert(is_white_space("Cleanup contains additional target guards because removing an entire directory tree carries different risks from ordinary duplicate processing."@[131]));
        }
    }
}

#[verifier::spinoff_prover]
proof fn lemma_runs_100()
    ensures
        short_runs("Report duplicate files 100MB or larger under"@, 36),
{
    reveal_strlit("Report duplicate files 100MB or larger under");
    assert forall|i: int| 0 <= i && i + 36 < "Report duplicate files 100MB or larger under"@.len() implies #[trigger] space_within("Report duplicate files 100MB or larger under"@, i, 36) by {
        {
            assert(is_white_space("Report duplicate files 100MB or larger under"@[31]));
        }
    }
}

#[verifier::spinoff_prover]
proof fn lemma_runs_101()
    ensures
        short_runs("Scan recursively and exclude selected directory trees:"@, 36),
{
    reveal_strlit("Scan recursively and exclude selected directory trees:");
    assert forall|i: int| 0 <= i && i + 36 < "Scan recursively and exclude selected directory trees:"@.len() implies #[trigger] space_within("Scan recursively and exclude selected directory trees:"@, i, 36) by {
        {
            assert(is_white_space("Scan recursively and exclude selected directory trees:"@[28]));
        }
    }
}

#[verifier::spinoff_prover]
proof fn lemma_runs_102()
    ensures
        short_runs("nk ~ -R --min-size 100M -E ~/bin ~/PycharmProjects ~/snap"@, 36),
{
    reveal_strlit("nk ~ -R --min-size 100M -E ~/bin ~/PycharmProjects ~/snap");
    assert forall|i: int| 0 <= i && i + 36 < "nk ~ -R --min-size 100M -E ~/bin ~/PycharmProjects ~/snap"@.len() implies #[trigger] space_within("nk ~ -R --min-size 100M -E ~/bin ~/PycharmProjects ~/snap"@, i, 36) by {
        {
            assert(is_white_space("nk ~ -R --min-size 100M -E ~/bin ~/PycharmProjects ~/snap"@[32]));
        }
    }
}

#[verifier::spinoff_prover]
proof fn lemma_runs_103()
    ensures
        short_runs("nk ~ -R --min-size 100M -p ~/DevX ~/Documents"@, 36),
{
    reveal_strlit("nk ~ -R --min-size 100M -p ~/DevX ~/Documents");
    assert forall|i: int| 0 <= i && i + 36 < "nk ~ -R --min-size 100M -p ~/DevX ~/Documents"@.len() implies #[trigger] space_within("nk ~ -R --min-size 100M -p ~/DevX ~/Documents"@, i, 36) by {
        {
            assert(is_white_space("nk ~ -R --min-size 100M -p ~/DevX ~/Documents"@[33]));
        }
    }
}

#[verifier::spinoff_prover]
proof fn lemma_runs_104()
    ensures
        short_runs("Create recoverable quarantine copies without changing the originals:"@, 36),
{
    reveal_strlit("Create recoverable quarantine copies without changing the originals:");
    assert forall|i: int| 0 <= i && i + 36 < "Create recoverable quarantine copies without changing the originals:"@.len() implies #[trigger] space_within("Create recoverable quarantine copies without changing the originals:"@, i, 36) by {
        {
            assert(is_white_space("Create recoverable quarantine copies without changing the originals:"@[36]));
        }
    }
}

#[verifier::spinoff_prover]
proof fn lemma_runs_105()
    ensures
        short_runs("Quarantine removable duplicates first, then offer each original for permanent deletion:"@, 36),
{
    reveal_strlit("Quarantine removable duplicates first, then offer each original for permanent deletion:");
    assert forall|i: int| 0 <= i && i + 36 < "Quarantine removable duplicates first, then offer each original for permanent deletion:"@.len() implies #[trigger] space_within("Quarantine removable duplicates first, then offer each original for permanent deletion:"@, i, 36) by {
        if i <= 31 {
            assert(is_white_space("Quarantine removable duplicates first, then offer each original for permanent deletion:"@[31]));
        } else if true {
            assert(is_white_space("Quarantine removable duplicates first, then offer each original for permanent deletion:"@[67]));
        }
    }
}

#[verifier::spinoff_prover]
proof fn lemma_runs_106()
    ensures
        short_runs("nk ~/Downloads -R --min-size 100M -q ~/nk-quarantine -d -i"@, 36),
{
    reveal_strlit("nk ~/Downloads -R --min-size 100M -q ~/nk-quarantine -d -i");
    assert forall|i: int| 0 <= i && i + 36 < "nk ~/Downloads -R --min-size 100M -q ~/nk-quarantine -d -i"@.len() implies #[trigger] space_within("nk ~/Downloads -R --min-size 100M -q ~/nk-quarantine -d -i"@, i, 36) by {
        {
            assert(is_white_space("nk ~/Downloads -R --min-size 100M -q ~/nk-quarantine -d -i"@[36]));
        }
    }
}

#[verifier::spinoff_prover]
proof fn lemma_runs_107()
    ensures
        short_runs("Restore files from a Nightkrawler quarantine:"@, 36),
{
    reveal_strlit("Restore files from a Nightkrawler quarantine:");
    assert forall|i: int| 0 <= i && i + 36 < "Restore files from a Nightkrawler quarantine:"@.len() implies #[trigger] space_within("Restore files from a Nightkrawler quarantine:"@, i, 36) by {
        {
            assert(is_white_space("Restore files from a Nightkrawler quarantine:"@[33]));
        }
    }
}

#[verifier::spinoff_prover]
proof fn lemma_runs_108()
    ensures
        short_runs("Remove a quarantine after it is no longer needed:"@, 36),
{
    reveal_strlit("Remove a quarantine after it is no longer needed:");
    assert forall|i: int| 0 <= i && i + 36 < "Remove a quarantine after it is no longer needed:"@.len() implies #[trigger] space_within("Remove a quarantine after it is no longer needed:"@, i, 36) by {
        {
            assert(is_white_space("Remove a quarantine after it is no longer needed:"@[34]));
        }
    }
}

#[verifier::spinoff_prover]
proof fn lemma_runs_109()
    ensures
        short_runs("For focused information about ordinary, generated, and protected classifications, use"@, 36),
{
    reveal_strlit("For focused information about ordinary, generated, and protected classifications, use");
    assert forall|i: int| 0 <= i && i + 36 < "For focused information about ordinary, generated, and protected classifications, use"@.len() implies #[trigger] space_within("For focused information about ordinary, generated, and protected classifications, use"@, i, 36) by {
        if i <= 29 {
            assert(is_white_space("For focused information about ordinary, generated, and protected classifications, use"@[29]));
        } else if true {
            assert(is_white_space("For focused information about ordinary, generated, and protected classifications, use"@[64]));
        }
    }
}

#[verifier::spinoff_prover]
proof fn lemma_runs_110()
    ensures
        short_runs("Classification helps make scan results easier to evaluate and adds safety around filesystem areas that deserve additional protection."@, 36),
{
    reveal_strlit("Classification helps make scan results easier to evaluate and adds safety around filesystem areas that deserve additional protection.");
    assert forall|i: int| 0 <= i && i + 36 < "Classification helps make scan results easier to evaluate and adds safety around filesystem areas that deserve additional protection."@.len() implies #[trigger] space_within("Classification helps make scan results easier to evaluate and adds safety around filesystem areas that deserve additional protection."@, i, 36) by {
        if i <= 30 {
            assert(is_white_space("Classification helps make scan results easier to evaluate and adds safety around filesystem areas that deserve additional protection."@[30]));
        } else if i <= 66 {
            assert(is_white_space("Classification helps make scan results easier to evaluate and adds safety around filesystem areas that deserve additional protection."@[66]));
        } else if true {
            assert(is_white_space("Classification helps make scan results easier to evaluate and adds safety around filesystem areas that deserve additional protection."@[102]));
        }
    }
}

#[verifier::spinoff_prover]
proof fn lemma_runs_111()
    ensures
        short_runs("An ordinary path does not belong to a generated or protected tree. Most normal user files will fall into this class."@, 36),
{
    reveal_strlit("An ordinary path does not belong to a generated or protected tree. Most normal user files will fall into this class.");
    assert forall|i: int| 0 <= i && i + 36 < "An ordinary path does not belong to a generated or protected tree. Most normal user files will fall into this class."@.len() implies #[trigger] space_within("An ordinary path does not belong to a generated or protected tree. Most normal user files will fall into this class."@, i, 36) by {
        if i <= 35 {
            assert(is_white_space("An ordinary path does not belong to a generated or protected tree. Most normal user files will fall into this class."@[35]));
        } else if i <= 71 {
            assert(is_white_space("An ordinary path does not belong to a generated or protected tree. Most normal user files will fall into this class."@[71]));
        } else if true {
            assert(is_white_space("An ordinary path does not belong to a generated or protected tree. Most normal user files will fall into this class."@[104]));
        }
    }
}

#[verifier::spinoff_prover]
proof fn lemma_runs_112()
    ensures
        short_runs("A generated path contains a directory name commonly associated with generated, cached, or rebuildable content."@, 36),
{
    reveal_strlit("A generated path contains a directory name commonly associated with generated, cached, or rebuildable content.");
    assert forall|i: int| 0 <= i && i + 36 < "A generated path contains a directory name commonly associated with generated, cached, or rebuildable content."@.len() implies #[trigger] space_within("A generated path contains a directory name commonly associated with generated, cached, or rebuildable content."@, i, 36) by {
        if i <= 27 {
            assert(is_white_space("A generated path contains a directory name commonly associated with generated, cached, or rebuildable content."@[27]));
        } else if i <= 62 {
            assert(is_white_space("A generated path contains a directory name commonly associated with generated, cached, or rebuildable content."@[62]));
        } else if true {
            assert(is_white_space("A generated path contains a directory name commonly associated with generated, cached, or rebuildable content."@[89]));
        }
    }
}

#[verifier::spinoff_prover]
proof fn lemma_runs_113()
    ensures
        short_runs("Recognized generated directory names include"@, 36),
{
    reveal_strlit("Recognized generated directory names include");
    assert forall|i: int| 0 <= i && i + 36 < "Recognized generated directory names include"@.len() implies #[trigger] space_within("Recognized generated directory names include"@, i, 36) by {
        {
            assert(is_white_space("Recognized generated directory names include"@[36]));
        }
    }
}

#[verifier::spinoff_prover]
proof fn lemma_runs_114()
    ensures
        short_runs("Generated classification does not automatically remove or ignore a file. It is a classification used for reporting and evaluation."@, 36),
{
    reveal_strlit("Generated classification does not automatically remove or ignore a file. It is a classification used for reporting and evaluation.");
    assert forall|i: int| 0 <= i && i + 36 < "Generated classification does not automatically remove or ignore a file. It is a classification used for reporting and evaluation."@.len() implies #[trigger] space_within("Generated classification does not automatically remove or ignore a file. It is a classification used for reporting and evaluation."@, i, 36) by {
        if i <= 33 {
            assert(is_white_space("Generated classification does not automatically remove or ignore a file. It is a classification used for reporting and evaluation."@[33]));
        } else if i <= 66 {
            assert(is_white_space("Generated classification does not automatically remove or ignore a file. It is a classification used for reporting and evaluation."@[66]));
        } else if true {
            assert(is_white_space("Generated classification does not automatically remove or ignore a file. It is a classification used for reporting and evaluation."@[100]));
        }
    }
}

#[verifier::spinoff_prover]
proof fn lemma_runs_115()
    ensures
        short_runs("A protected path belongs to a filesystem tree where Nightkrawler action modes require explicit permission before operating on removable duplicate candidates."@, 36),
{
    reveal_strlit("A protected path belongs to a filesystem tree where Nightkrawler action modes require explicit permission before operating on removable duplicate candidates.");
    assert forall|i: int| 0 <= i && i + 36 < "A protected path belongs to a filesystem tree where Nightkrawler action modes require explicit permission before operating on removable duplicate candidates."@.len() implies #[trigger] space_within("A protected path belongs to a filesystem tree where Nightkrawler action modes require explicit permission before operating on removable duplicate candidates."@, i, 36) by {
        if i <= 29 {
            assert(is_white_space("A protected path belongs to a filesystem tree where Nightkrawler action modes require explicit permission before operating on removable duplicate candidates."@[29]));
        } else if i <= 64 {
            assert(is_white_space("A protected path belongs to a filesystem tree where Nightkrawler action modes require explicit permission before operating on removable duplicate candidates."@[64]));
        } else if i <= 94 {
            assert(is_white_space("A protected path belongs to a filesystem tree where Nightkrawler action modes require explicit permission before operating on removable duplicate candidates."@[94]));
        } else if true {
            assert(is_white_space("A protected path belongs to a filesystem tree where Nightkrawler action modes require explicit permission before operating on removable duplicate candidates."@[125]));
        }
    }
}

#[verifier::spinoff_prover]
proof fn lemma_runs_116()
    ensures
        short_runs("Classification applies to complete duplicate groups as well as individual paths. If a group contains members from different classes, Nightkrawler reports the group using the most restrictive class present."@, 36),
{
    reveal_strlit("Classification applies to complete duplicate groups as well as individual paths. If a group contains members from different classes, Nightkrawler reports the group using the most restrictive class present.");
    assert forall|i: int| 0 <= i && i + 36 < "Classification applies to complete duplicate groups as well as individual paths. If a group contains members from different classes, Nightkrawler reports the group using the most restrictive class present."@.len() implies #[trigger] space_within("Classification applies to complete duplicate groups as well as individual paths. If a group contains members from different classes, Nightkrawler reports the group using the most restrictive class present."@, i, 36) by {
        if i <= 34 {
            assert(is_white_space("Classification applies to complete duplicate groups as well as individual paths. If a group contains members from different classes, Nightkrawler reports the group using the most restrictive class present."@[34]));
        } else if i <= 62 {
            assert(is_white_space("Classification applies to complete duplicate groups as well as individual paths. If a group contains members from different classes, Nightkrawler reports the group using the most restrictive class present."@[62]));
        } else if i <= 91 {
            assert(is_white_space("Classification applies to complete duplicate groups as well as individual paths. If a group contains members from different classes, Nightkrawler reports the group using the most restrictive class present."@[91]));
        } else if i <= 123 {
            assert(is_white_space("Classification applies to complete duplicate groups as well as individual paths. If a group contains members from different classes, Nightkrawler reports the group using the most restrictive class present."@[123]));
        } else if i <= 157 {
            assert(is_white_space("Classification applies to complete duplicate groups as well as individual paths. If a group contains members from different classes, Nightkrawler reports the group using the most restrictive class present."@[157]));
        } else if true {
            assert(is_white_space("Classification applies to complete duplicate groups as well as individual paths. If a group contains members from different classes, Nightkrawler reports the group using the most restrictive class present."@[190]));
        }
    }
}

#[verifier::spinoff_prover]
proof fn lemma_runs_117()
    ensures
        short_runs("to add one or more protected directory trees for the current scan."@, 36),
{
    reveal_strlit("to add one or more protected directory trees for the current scan.");
    assert forall|i: int| 0 <= i && i + 36 < "to add one or more protected directory trees for the current scan."@.len() implies #[trigger] space_within("to add one or more protected directory trees for the current scan."@, i, 36) by {
        if i <= 28 {
            assert(is_white_space("to add one or more protected directory trees for the current scan."@[28]));
        } else if true {
            assert(is_white_space("to add one or more protected directory trees for the current scan."@[60]));
        }
    }
}

#[verifier::spinoff_prover]
proof fn lemma_runs_118()
    ensures
        short_runs("nk ~ -R --min-size 100M --protect ~/.sensitive ~/important"@, 36),
{
    reveal_strlit("nk ~ -R --min-size 100M --protect ~/.sensitive ~/important");
    assert forall|i: int| 0 <= i && i + 36 < "nk ~ -R --min-size 100M --protect ~/.sensitive ~/important"@.len() implies #[trigger] space_within("nk ~ -R --min-size 100M --protect ~/.sensitive ~/important"@, i, 36) by {
        {
            assert(is_white_space("nk ~ -R --min-size 100M --protect ~/.sensitive ~/important"@[33]));
        }
    }
}

#[verifier::spinoff_prover]
proof fn lemma_runs_119()
    ensures
        short_runs("Protection is not the same as exclusion. A path supplied with"@, 36),
{
    reveal_strlit("Protection is not the same as exclusion. A path supplied with");
    assert forall|i: int| 0 <= i && i + 36 < "Protection is not the same as exclusion. A path supplied with"@.len() implies #[trigger] space_within("Protection is not the same as exclusion. A path supplied with"@, i, 36) by {
        {
            assert(is_white_space("Protection is not the same as exclusion. A path supplied with"@[29]));
        }
    }
}

#[verifier::spinoff_prover]
proof fn lemma_runs_120()
    ensures
        short_runs("may still be scanned, classified, and reported."@, 36),
{
    reveal_strlit("may still be scanned, classified, and reported.");
    assert forall|i: int| 0 <= i && i + 36 < "may still be scanned, classified, and reported."@.len() implies #[trigger] space_within("may still be scanned, classified, and reported."@, i, 36) by {
        {
            assert(is_white_space("may still be scanned, classified, and reported."@[33]));
        }
    }
}

#[verifier::spinoff_prover]
proof fn lemma_runs_121()
    ensures
        short_runs("Protected duplicate groups may still be inspected and reported normally."@, 36),
{
    reveal_strlit("Protected duplicate groups may still be inspected and reported normally.");
    assert forall|i: int| 0 <= i && i + 36 < "Protected duplicate groups may still be inspected and reported normally."@.len() implies #[trigger] space_within("Protected duplicate groups may still be inspected and reported normally."@, i, 36) by {
        {
            assert(is_white_space("Protected duplicate groups may still be inspected and reported normally."@[36]));
        }
    }
}

#[verifier::spinoff_prover]
proof fn lemma_runs_122()
    ensures
        short_runs("would act on a protected removable candidate, Nightkrawler performs a safety stop unless"@, 36),
{
    reveal_strlit("would act on a protected removable candidate, Nightkrawler performs a safety stop unless");
    assert forall|i: int| 0 <= i && i + 36 < "would act on a protected removable candidate, Nightkrawler performs a safety stop unless"@.len() implies #[trigger] space_within("would act on a protected removable candidate, Nightkrawler performs a safety stop unless"@, i, 36) by {
        if i <= 34 {
            assert(is_white_space("would act on a protected removable candidate, Nightkrawler performs a safety stop unless"@[34]));
        } else if true {
            assert(is_white_space("would act on a protected removable candidate, Nightkrawler performs a safety stop unless"@[69]));
        }
    }
}

#[verifier::spinoff_prover]
proof fn lemma_runs_123()
    ensures
        short_runs("The safety stop reports the protected candidate, its protected root, and the scan path. The refused action does not change original files."@, 36),
{
    reveal_strlit("The safety stop reports the protected candidate, its protected root, and the scan path. The refused action does not change original files.");
    assert forall|i: int| 0 <= i && i + 36 < "The safety stop reports the protected candidate, its protected root, and the scan path. The refused action does not change original files."@.len() implies #[trigger] space_within("The safety stop reports the protected candidate, its protected root, and the scan path. The refused action does not change original files."@, i, 36) by {
        if i <= 27 {
            assert(is_white_space("The safety stop reports the protected candidate, its protected root, and the scan path. The refused action does not change original files."@[27]));
        } else if i <= 62 {
            assert(is_white_space("The safety stop reports the protected candidate, its protected root, and the scan path. The refused action does not change original files."@[62]));
        } else if i <= 99 {
            assert(is_white_space("The safety stop reports the protected candidate, its protected root, and the scan path. The refused action does not change original files."@[99]));
        } else if true {
            assert(is_white_space("The safety stop reports the protected candidate, its protected root, and the scan path. The refused action does not change original files."@[131]));
        }
    }
}

#[verifier::spinoff_prover]
proof fn lemma_runs_124()
    ensures
        short_runs("is an explicit override. It tells Nightkrawler that action on protected removable candidates is intentional."@, 36),
{
    reveal_strlit("is an explicit override. It tells Nightkrawler that action on protected removable candidates is intentional.");
    assert forall|i: int| 0 <= i && i + 36 < "is an explicit override. It tells Nightkrawler that action on protected removable candidates is intentional."@.len() implies #[trigger] space_within("is an explicit override. It tells Nightkrawler that action on protected removable candidates is intentional."@, i, 36) by {
        if i <= 33 {
            assert(is_white_space("is an explicit override. It tells Nightkrawler that action on protected removable candidates is intentional."@[33]));
        } else if i <= 61 {
            assert(is_white_space("is an explicit override. It tells Nightkrawler that action on protected removable candidates is intentional."@[61]));
        } else if true {
            assert(is_white_space("is an explicit override. It tells Nightkrawler that action on protected removable candidates is intentional."@[95]));
        }
    }
}

#[verifier::spinoff_prover]
proof fn lemma_runs_125()
    ensures
        short_runs("and explicitly permit quarantine action on protected candidates:"@, 36),
{
    reveal_strlit("and explicitly permit quarantine action on protected candidates:");
    assert forall|i: int| 0 <= i && i + 36 < "and explicitly permit quarantine action on protected candidates:"@.len() implies #[trigger] space_within("and explicitly permit quarantine action on protected candidates:"@, i, 36) by {
        {
            assert(is_white_space("and explicitly permit quarantine action on protected candidates:"@[32]));
        }
    }
}

#[verifier::spinoff_prover]
proof fn lemma_runs_126()
    ensures
        short_runs("nk / -R --min-size 100M -q /tmp/q --allow-protected"@, 36),
{
    reveal_strlit("nk / -R --min-size 100M -q /tmp/q --allow-protected");
    assert forall|i: int| 0 <= i && i + 36 < "nk / -R --min-size 100M -q /tmp/q --allow-protected"@.len() implies #[trigger] space_within("nk / -R --min-size 100M -q /tmp/q --allow-protected"@, i, 36) by {
        {
            assert(is_white_space("nk / -R --min-size 100M -q /tmp/q --allow-protected"@[33]));
        }
    }
}

#[verifier::spinoff_prover]
proof fn lemma_runs_127()
    ensures
        short_runs("Exclude a tree entirely instead of protecting it:"@, 36),
{
    reveal_strlit("Exclude a tree entirely instead of protecting it:");
    assert forall|i: int| 0 <= i && i + 36 < "Exclude a tree entirely instead of protecting it:"@.len() implies #[trigger] space_within("Exclude a tree entirely instead of protecting it:"@, i, 36) by {
        {
            assert(is_white_space("Exclude a tree entirely instead of protecting it:"@[34]));
        }
    }
}

#[verifier::spinoff_prover]
proof fn lemma_runs_128()
    ensures
        short_runs("nk ~ -R --min-size 100M --exclude ~/.cache"@, 36),
{
    reveal_strlit("nk ~ -R --min-size 100M --exclude ~/.cache");
    assert forall|i: int| 0 <= i && i + 36 < "nk ~ -R --min-size 100M --exclude ~/.cache"@.len() implies #[trigger] space_within("nk ~ -R --min-size 100M --exclude ~/.cache"@, i, 36) by {
        {
            assert(is_white_space("nk ~ -R --min-size 100M --exclude ~/.cache"@[33]));
        }
    }
}

#[verifier::spinoff_prover]
proof fn lemma_runs_129()
    ensures
        short_runs("For the complete Nightkrawler documentation, use"@, 36),
{
    reveal_strlit("For the complete Nightkrawler documentation, use");
    assert forall|i: int| 0 <= i && i + 36 < "For the complete Nightkrawler documentation, use"@.len() implies #[trigger] space_within("For the complete Nightkrawler documentation, use"@, i, 36) by {
        {
            assert(is_white_space("For the complete Nightkrawler documentation, use"@[29]));
        }
    }
}

#[verifier::spinoff_prover]
proof fn lemma_help_blocks_1_short()
    ensures
        blocks_short(help_blocks_1(), 80, 60, 59),
{
    reveal_strlit("nightkrawler - duplicate file finder and removal tool");
    reveal_strlit("Usage:");
    reveal_strlit("nk");
    reveal_strlit("PATH");
    reveal_strlit("--min-size");
    reveal_strlit("SIZE");
    reveal_strlit("[options]");
    reveal_strlit("nightkrawler");
}

#[verifier::spinoff_prover]
proof fn lemma_help_blocks_2_short()
    ensures
        blocks_short(help_blocks_2(), 80, 60, 59),
{
    reveal_strlit("Meta:");
    reveal_strlit("-h, --help");
    reveal_strlit("Show this help text");
    reveal_strlit("-v, --version");
    reveal_strlit("Show version info");
    reveal_strlit("--manual");
    reveal_strlit("Show extensive manual");
    reveal_strlit("--classification-help");
    reveal_strlit("Show help on classification");
    reveal_strlit("--no-colors");
    reveal_strlit("Disable colored output");
}

#[verifier::spinoff_prover]
proof fn lemma_help_blocks_3_short()
    ensures
        blocks_short(help_blocks_3(), 80, 60, 59),
{
    reveal_strlit("Options:");
    reveal_strlit("--min-size SIZE");
    reveal_strlit("Required. Ignore files smaller than SIZE: 100K, 10M, 1G");
    reveal_strlit("--exclude, -E PATH");
    reveal_strlit("Exclude one or more paths");
    reveal_strlit("--protect, -P PATH");
    reveal_strlit("Protect one or more paths from action modes");
    reveal_strlit("--allow-protected");
    reveal_strlit("Allow action modes on protected paths");
}

#[verifier::spinoff_prover]
proof fn lemma_help_blocks_4_short()
    ensures
        blocks_short(help_blocks_4(), 80, 60, 59),
{
    reveal_strlit("--prefer PATH...");
    reveal_strlit("Prefer keeping duplicate files under these paths");
    reveal_strlit("--force-dotdirs");
    reveal_strlit("Include dot-directories during recursive scans");
    reveal_strlit("--keep-highest-version");
    reveal_strlit("Prefer keeping files in highest version-like path");
    reveal_strlit("--recursive, -R");
    reveal_strlit("Scan recursively");
    reveal_strlit("--quarantine, -q PATH");
    reveal_strlit("Copy removable duplicate files into PATH");
    reveal_strlit("--trash, -t");
    reveal_strlit("Move removable duplicate files to system Trash");
    reveal_strlit("--delete, -d");
    reveal_strlit("Delete removable duplicate files");
    reveal_strlit("--interactive, -i");
    reveal_strlit("Ask before each destructive action");
}

#[verifier::spinoff_prover]
proof fn lemma_help_blocks_5_short()
    ensures
        blocks_short(help_blocks_5(), 80, 60, 59),
{
    reveal_strlit("--restore, -u PATH");
    reveal_strlit("Restore files in quarantine; PATH must point to quarantine");
    reveal_strlit("--cleanup, -c");
    reveal_strlit("Empty quarantine files and remove its directory");
    reveal_strlit("--report, -r PATH");
    reveal_strlit("Write report to PATH; directories use an automatic filename");
    reveal_strlit("Safety:");
    reveal_strlit("Without");
    reveal_strlit("--quarantine, --trash, or --delete,");
    reveal_strlit("this version is report-only.");
}

#[verifier::spinoff_prover]
proof fn lemma_help_blocks_6_short()
    ensures
        blocks_short(help_blocks_6(), 80, 60, 59),
{
    reveal_strlit("--quarantine");
    reveal_strlit("copies files instead of deleting them.");
    reveal_strlit("--trash");
    reveal_strlit("moves files to Trash, if available, for manual recovery through your file manager.");
    reveal_strlit("--delete");
    reveal_strlit("permanently removes files.");
    reveal_strlit("--interactive");
    reveal_strlit("asks before each trash or delete action.");
    reveal_strlit("--prefer");
    reveal_strlit("only changes which duplicate is kept.");
    reveal_strlit("If");
    reveal_strlit("and");
    reveal_strlit("are used together, files are copied first.");
    lemma_runs_0();
}

#[verifier::spinoff_prover]
proof fn lemma_help_blocks_7_short()
    ensures
        blocks_short(help_blocks_7(), 80, 60, 59),
{
    reveal_strlit("If quarantine copying fails or is skipped, trash or delete is refused.");
    reveal_strlit("Nightkrawler checks free space before copying.");
    reveal_strlit("It does not move files except when using");
    reveal_strlit("--trash.");
    reveal_strlit("It does not follow symlinks.");
    reveal_strlit("It skips dot-directories unless");
    reveal_strlit("--force-dotdirs");
    reveal_strlit("is used.");
    reveal_strlit("Protected high-level paths refuse action modes unless");
    reveal_strlit("--allow-protected");
}

#[verifier::spinoff_prover]
proof fn lemma_help_blocks_8_short()
    ensures
        blocks_short(help_blocks_8(), 80, 60, 59),
{
    reveal_strlit("Examples:");
    reveal_strlit("Scan");
    reveal_strlit("~/Downloads");
    reveal_strlit("for files >=100MB. (Report only):");
    reveal_strlit("nk ~/Downloads --min-size 100M");
    reveal_strlit("for files >=100MB recursively. (Report only):");
    reveal_strlit("nk ~/Downloads --recursive --min-size 100M");
    reveal_strlit("~");
    reveal_strlit("recursively for files >=100MB. Exclude");
    reveal_strlit("~/bin, ~/PycharmProjects,");
    reveal_strlit("and");
    reveal_strlit("~/snap.");
    reveal_strlit("(Report only):");
    reveal_strlit("nk ~ --recursive --min-size 100M --exclude ~/bin ~/PycharmProjects ~/snap");
    reveal_strlit("recursively for files >=100MB and prefer keeping duplicates under");
    reveal_strlit("~/DevX");
    reveal_strlit("then");
    reveal_strlit("~/Documents.");
    reveal_strlit("nk ~ -R --min-size 100M --prefer ~/DevX ~/Documents");
    reveal_strlit("recursively for files >=100MB, prefer keeping duplicates under");
    reveal_strlit("~/DevX,");
    reveal_strlit("and copy removable duplicates to quarantine:");
    reveal_strlit("nk ~ -R --min-size 100M --prefer ~/DevX --quarantine ~/nk-quarantine");
    reveal_strlit("/");
    reveal_strlit("recursively for files 100MB or larger. (Report only):");
    reveal_strlit("nk / -R --min-size 100M");
}

#[verifier::spinoff_prover]
proof fn lemma_help_blocks_9_short()
    ensures
        blocks_short(help_blocks_9(), 80, 60, 59),
{
    reveal_strlit("Scan");
    reveal_strlit("/");
    reveal_strlit("recursively for files 100MB or larger, quarantine removable duplicates to");
    reveal_strlit("/tmp/q,");
    reveal_strlit("and allow action on protected candidates:");
    reveal_strlit("nk / -R --min-size 100M -q /tmp/q --allow-protected");
    reveal_strlit("Scan the directory recursively, quarantine removable duplicates, then offer each original duplicate for deletion, while protecting");
    reveal_strlit("~/.sensitive.");
    reveal_strlit("(Files may be deleted!):");
    reveal_strlit("nk ~ --min-size 100M -q /tmp/q --protect ~/.sensitive -d --interactive");
    reveal_strlit("~/Downloads");
    reveal_strlit("for files 100MB or larger, then move removable duplicates to Trash:");
    reveal_strlit("nk ~/Downloads --recursive --min-size 100M --trash");
    reveal_strlit("recursively for files 100MB or larger and offer each removable duplicate for Trash interactively:");
    reveal_strlit("nk ~/Downloads --recursive --min-size 100M -t -i");
    reveal_strlit("Scan the directory recursively, quarantine removable duplicates, then move the original removable duplicates to Trash:");
    reveal_strlit("nk ~/Downloads --recursive --min-size 100M --quarantine ~/nk-quarantine -t");
    reveal_strlit("Scan the directory recursively and permanently delete removable duplicate files larger than 100MB:");
    reveal_strlit("nk ~/Downloads --recursive --min-size 100M --delete");
    reveal_strlit("Scan the directory recursively and offer each removable duplicate for deletion interactively:");
    reveal_strlit("nk ~/Downloads --recursive --min-size 100M -d -i");
    reveal_strlit("Scan the directory recursively, quarantine removable duplicates, then permanently delete the originals:");
    reveal_strlit("nk ~/Downloads --recursive --min-size 100M -q ~/nk-quarantine -d");
    lemma_runs_1();
    lemma_runs_2();
    lemma_runs_3();
    lemma_runs_4();
    lemma_runs_5();
    lemma_runs_6();
}

#[verifier::spinoff_prover]
proof fn lemma_help_blocks_10_short()
    ensures
        blocks_short(help_blocks_10(), 80, 60, 59),
{
    reveal_strlit("Scan the directory recursively, quarantine removable duplicates, then offer each original removable duplicate for deletion:");
    reveal_strlit("nk ~/Downloads --recursive --min-size 100M -q ~/nk-quarantine -d -i");
    reveal_strlit("Note:");
    reveal_strlit("After the command has finished, Nightkrawler generates a report in the current directory or where specified by");
    reveal_strlit("-r, --report");
    reveal_strlit("PATH.");
    reveal_strlit("The report contains detailed information from the scan, quarantine, and Trash/delete process, as well as metadata about the scanned host.");
    lemma_runs_7();
    lemma_runs_8();
    lemma_runs_9();
}

#[verifier::spinoff_prover]
proof fn lemma_manual_blocks_1_short(os: TargetOs)
    ensures
        blocks_short(manual_blocks_1(os), 36, 40, 0),
{
    reveal_strlit("Nightkrawler Manual");
    reveal_strlit("Nightkrawler is a duplicate file finder and removal tool designed around cautious inspection, explicit action modes, and recoverable workflows.");
    reveal_strlit("Overview");
    reveal_strlit("Nightkrawler scans regular files, groups files with identical content, chooses one file from each duplicate group to keep, and identifies the remaining copies as removable duplicates.");
    reveal_strlit("Without");
    reveal_strlit("--quarantine, --trash,");
    reveal_strlit("or");
    reveal_strlit("--delete,");
    reveal_strlit("Nightkrawler operates in report-only mode. It scans and reports duplicate groups without changing the original files.");
    lemma_runs_10();
    lemma_runs_11();
    lemma_runs_12();
}

#[verifier::spinoff_prover]
proof fn lemma_manual_blocks_2_short(os: TargetOs)
    ensures
        blocks_short(manual_blocks_2(os), 36, 40, 0),
{
    reveal_strlit("A duplicate group always keeps one matching file. Action modes operate only on the removable members of the group.");
    reveal_strlit("Nightkrawler compares file contents rather than filenames. Files may have completely different names and still belong to the same duplicate group when their contents are identical.");
    reveal_strlit("Zero-byte files follow the same duplicate rule as every other regular file. If several zero-byte files form a duplicate group, one is kept and the others are treated as removable duplicates.");
    reveal_strlit("Usage");
    reveal_strlit("nk");
    reveal_strlit("PATH");
    reveal_strlit("--min-size");
    reveal_strlit("SIZE");
    reveal_strlit("[options]");
    reveal_strlit("nightkrawler");
    lemma_runs_13();
    lemma_runs_14();
    lemma_runs_15();
}

#[verifier::spinoff_prover]
proof fn lemma_manual_blocks_3_short(os: TargetOs)
    ensures
        blocks_short(manual_blocks_3(os), 36, 40, 0),
{
    reveal_strlit("PATH");
    reveal_strlit("is the directory or file tree Nightkrawler will inspect. Only one scan path may be supplied.");
    reveal_strlit("--min-size");
    reveal_strlit("is required for scan commands. Files smaller than the selected threshold are ignored before duplicate comparison begins.");
    reveal_strlit("SIZE");
    reveal_strlit("accepts byte values or binary-style suffixes such as");
    reveal_strlit("100K, 10M, 1G,");
    reveal_strlit("and");
    reveal_strlit("1T.");
    reveal_strlit("The short command name");
    reveal_strlit("nk");
    reveal_strlit("and the full executable name");
    reveal_strlit("nightkrawler");
    reveal_strlit("refer to the same program when the short command is installed as a symlink or configured as a shell alias. Packaged installations should provide the");
    reveal_strlit("symlink automatically.");
    reveal_strlit("Scanning");
    reveal_strlit("Nightkrawler scans regular files only. Symbolic links are not followed and are not added to duplicate groups.");
    reveal_strlit("Without");
    reveal_strlit("--recursive");
    reveal_strlit("or");
    reveal_strlit("-R,");
    reveal_strlit("Nightkrawler inspects files directly under the selected scan path. Recursive mode descends into subdirectories.");
    reveal_strlit("Dot-directories are skipped during recursive scanning unless");
    reveal_strlit("--force-dotdirs");
    reveal_strlit("is supplied.");
    lemma_runs_16();
    lemma_runs_17();
    lemma_runs_18();
    lemma_runs_19();
    lemma_runs_20();
    lemma_runs_21();
    lemma_runs_22();
}

#[verifier::spinoff_prover]
proof fn lemma_manual_blocks_4_short(os: TargetOs)
    ensures
        blocks_short(manual_blocks_4(os), 36, 40, 0),
{
    reveal_strlit("Paths supplied with");
    reveal_strlit("--exclude");
    reveal_strlit("or");
    reveal_strlit("-E");
    reveal_strlit("are omitted from scanning. Multiple excluded paths may be supplied after the option.");
    reveal_strlit("When a quarantine directory is configured, Nightkrawler also excludes that quarantine tree from the scan so copied quarantine files cannot immediately become duplicate candidates themselves.");
    reveal_strlit("Files are first grouped by size. Files with unique sizes require no further duplicate comparison. Matching-size candidates are hashed and then verified by direct byte comparison before they are accepted as identical.");
    reveal_strlit("This final byte comparison prevents a hash match alone from being treated as proof that two files are identical.");
    reveal_strlit("Classification");
    reveal_strlit("Nightkrawler classifies duplicate paths as");
    reveal_strlit("ordinary, generated,");
    reveal_strlit("protected.");
    reveal_strlit("Classification helps distinguish normal files from generated trees and filesystem areas that deserve additional protection.");
    reveal_strlit("Ordinary");
    reveal_strlit("An ordinary path is a file that does not fall under a generated or protected path rule.");
    reveal_strlit("Generated");
    reveal_strlit("Generated paths are recognized when their path contains common generated-directory names such as");
    reveal_strlit("target, build, dist, .cache, __pycache__, node_modules,");
    reveal_strlit(".gradle.");
    lemma_runs_23();
    lemma_runs_24();
    lemma_runs_25();
    lemma_runs_26();
    lemma_runs_27();
    lemma_runs_28();
    lemma_runs_29();
    lemma_runs_30();
    lemma_runs_31();
}

#[verifier::spinoff_prover]
proof fn lemma_manual_blocks_5_short(os: TargetOs)
    ensures
        blocks_short(manual_blocks_5(os), 36, 40, 0),
{
    reveal_strlit("Generated classification does not automatically delete anything. It describes where the duplicate group was found and helps make reports easier to evaluate.");
    reveal_strlit("Protected");
    reveal_strlit("Protected paths are filesystem trees where action modes require explicit permission through");
    reveal_strlit("--allow-protected.");
    reveal_strlit("Built-in protected roots include");
    reveal_strlit("/boot, /etc,");
    reveal_strlit("and");
    reveal_strlit("/root.");
    reveal_strlit("On FreeBSD,");
    reveal_strlit("/usr/local/etc");
    reveal_strlit("is also protected by default.");
    reveal_strlit("On NetBSD,");
    reveal_strlit("/usr/pkg/etc");
    reveal_strlit("When");
    reveal_strlit("HOME");
    reveal_strlit("is available, Nightkrawler also protects");
    reveal_strlit("~/.ssh, ~/.gnupg,");
    reveal_strlit("~/.config.");
    reveal_strlit("Additional protected trees may be supplied with");
    reveal_strlit("--protect");
    reveal_strlit("or");
    reveal_strlit("-P.");
    reveal_strlit("If any file in a duplicate group belongs to a more restrictive classification, the group is reported using that classification.");
    lemma_runs_32();
    lemma_runs_33();
    lemma_runs_34();
    lemma_runs_35();
    lemma_runs_36();
}

#[verifier::spinoff_prover]
proof fn lemma_manual_blocks_6_short(os: TargetOs)
    ensures
        blocks_short(manual_blocks_6(os), 36, 40, 0),
{
    reveal_strlit("For a shorter explanation focused only on classification, use");
    reveal_strlit("--classification-help.");
    reveal_strlit("Keeper Selection");
    reveal_strlit("Every duplicate group contains one file selected as the keeper. The remaining matching files become removable candidates.");
    reveal_strlit("Keeper selection never means that Nightkrawler considers the other files different. All members of the group have already been verified as identical by content.");
    reveal_strlit("Default policy");
    reveal_strlit("The default keeper policy uses deterministic path-based ordering. Files under locations commonly associated with temporary or replaceable content are less preferred than ordinary locations.");
    reveal_strlit("Examples of less-preferred locations include");
    reveal_strlit("Downloads, .cache, .cargo, .gradle,");
    reveal_strlit("and");
    reveal_strlit(".local/share.");
    reveal_strlit("When candidates remain tied, Nightkrawler uses path depth and pathname ordering to make the final choice reproducible.");
    reveal_strlit("--prefer");
    reveal_strlit("Use");
    reveal_strlit("or");
    reveal_strlit("-p");
    reveal_strlit("to give one or more directory trees explicit keeper priority.");
    lemma_runs_37();
    lemma_runs_38();
    lemma_runs_39();
    lemma_runs_40();
    lemma_runs_41();
    lemma_runs_42();
    lemma_runs_43();
}

#[verifier::spinoff_prover]
proof fn lemma_manual_blocks_7_short(os: TargetOs)
    ensures
        blocks_short(manual_blocks_7(os), 36, 40, 0),
{
    reveal_strlit("Preferred paths are ordered. The first path has the highest priority, followed by the second, and so on.");
    reveal_strlit("nk ~ -R --min-size 100M --prefer ~/DevX ~/Documents");
    reveal_strlit("In this example, a matching file under");
    reveal_strlit("~/DevX");
    reveal_strlit("is preferred first. A matching file under");
    reveal_strlit("~/Documents");
    reveal_strlit("has the next priority.");
    reveal_strlit("--keep-highest-version");
    reveal_strlit("The");
    reveal_strlit("policy searches pathname components for version-like values such as");
    reveal_strlit("1.2, 2.0.1,");
    reveal_strlit("or");
    reveal_strlit("v3.4.");
    reveal_strlit("When version-like candidates are available, Nightkrawler prefers the file associated with the highest detected version. Other keeper rules are used to break ties or when no usable version is found.");
    reveal_strlit("Explicit");
    reveal_strlit("--prefer");
    reveal_strlit("paths take priority before the selected keeper policy is applied.");
    reveal_strlit("Protection");
    lemma_runs_44();
    lemma_runs_45();
    lemma_runs_46();
    lemma_runs_47();
    lemma_runs_48();
    lemma_runs_49();
    lemma_runs_50();
}

#[verifier::spinoff_prover]
proof fn lemma_manual_blocks_8_short(os: TargetOs)
    ensures
        blocks_short(manual_blocks_8(os), 36, 40, 0),
{
    reveal_strlit("Protection is separate from exclusion. An excluded path is not scanned. A protected path may still be scanned and reported, but action modes are prevented from operating on protected candidates unless explicit permission is given.");
    reveal_strlit("Use");
    reveal_strlit("--protect");
    reveal_strlit("or");
    reveal_strlit("-P");
    reveal_strlit("to add one or more protected path trees for the current command.");
    reveal_strlit("nk ~ -R --min-size 100M --protect ~/.sensitive");
    reveal_strlit("The protected tree remains visible to classification and reporting. Protection becomes decisive when");
    reveal_strlit("--quarantine, --trash,");
    reveal_strlit("--delete");
    reveal_strlit("would act on a protected removable candidate.");
    reveal_strlit("If a protected removable candidate is found during an action mode, Nightkrawler performs a safety stop unless");
    reveal_strlit("--allow-protected");
    reveal_strlit("was supplied.");
    reveal_strlit("The safety stop identifies the protected candidate, the matching protected root, and the scan path. Original files are not changed by the refused action.");
    reveal_strlit("is therefore an explicit override. It should be used only when action on the protected candidates is intentional.");
    lemma_runs_51();
    lemma_runs_52();
    lemma_runs_53();
    lemma_runs_54();
    lemma_runs_55();
    lemma_runs_56();
    lemma_runs_57();
    lemma_runs_58();
}

#[verifier::spinoff_prover]
proof fn lemma_manual_blocks_9_short(os: TargetOs)
    ensures
        blocks_short(manual_blocks_9(os), 36, 40, 0),
{
    reveal_strlit("For ordinary report-only inspection,");
    reveal_strlit("--protect");
    reveal_strlit("is still useful because the classification and generated report will identify matching groups as protected.");
    reveal_strlit("Action Modes");
    reveal_strlit("Nightkrawler has three action modes:");
    reveal_strlit("--quarantine, --trash,");
    reveal_strlit("and");
    reveal_strlit("--delete.");
    reveal_strlit("Without an action mode, a scan is report-only.");
    reveal_strlit("--quarantine");
    reveal_strlit("Copies removable duplicates into a quarantine directory while leaving the original files in place.");
    reveal_strlit("--trash");
    reveal_strlit("Moves removable duplicates to the system Trash implementation.");
    reveal_strlit("--delete");
    reveal_strlit("Permanently removes removable duplicate files from their original locations.");
    reveal_strlit("are mutually exclusive. Choose one destructive action for a scan.");
    reveal_strlit("may be combined with either");
    reveal_strlit("or");
    reveal_strlit("In that workflow, Nightkrawler creates the quarantine copies before changing the originals.");
    lemma_runs_59();
    lemma_runs_60();
    lemma_runs_61();
    lemma_runs_62();
    lemma_runs_63();
    lemma_runs_64();
    lemma_runs_65();
}

#[verifier::spinoff_prover]
proof fn lemma_manual_blocks_10_short(os: TargetOs)
    ensures
        blocks_short(manual_blocks_10(os), 36, 40, 0),
{
    reveal_strlit("--interactive");
    reveal_strlit("may be used with");
    reveal_strlit("--trash");
    reveal_strlit("or");
    reveal_strlit("--delete");
    reveal_strlit("to ask before each destructive action. It does not make quarantine copying interactive.");
    reveal_strlit("Quarantine");
    reveal_strlit("Quarantine is Nightkrawler's recoverable copy stage. Use");
    reveal_strlit("--quarantine");
    reveal_strlit("-q");
    reveal_strlit("followed by the directory where removable duplicate copies should be stored.");
    reveal_strlit("nk ~/Downloads -R --min-size 100M -q ~/nk-quarantine");
    reveal_strlit("Nightkrawler preserves the scanned path structure below the quarantine directory where possible. If a destination name already exists, a unique Nightkrawler suffix is added rather than overwriting the existing quarantine file.");
    reveal_strlit("Before copying begins, Nightkrawler calculates the total size of the removable duplicates and checks the available free space on the filesystem containing the quarantine directory.");
    reveal_strlit("If there is not enough free space, quarantine is refused before files are copied.");
    lemma_runs_66();
    lemma_runs_67();
    lemma_runs_68();
    lemma_runs_69();
    lemma_runs_70();
    lemma_runs_71();
    lemma_runs_72();
}

#[verifier::spinoff_prover]
proof fn lemma_manual_blocks_11_short(os: TargetOs)
    ensures
        blocks_short(manual_blocks_11(os), 36, 40, 0),
{
    reveal_strlit("A quarantine manifest records the original path, quarantine path, and size of each copied file. The current manifest format stores Unix pathnames as their original bytes rather than relying on tab- or newline-separated text fields.");
    reveal_strlit("This allows valid Unix filenames containing tabs, newlines, spaces, or non-UTF-8 pathname bytes to be represented without using those characters as field separators.");
    reveal_strlit("When quarantine is combined with");
    reveal_strlit("--trash");
    reveal_strlit("or");
    reveal_strlit("--delete,");
    reveal_strlit("the destructive stage is allowed to proceed only if all intended quarantine copies completed successfully.");
    reveal_strlit("If quarantine copying fails or is incomplete, Nightkrawler performs a safety stop and refuses the Trash or delete stage. Original files are left unchanged by the refused destructive action.");
    reveal_strlit("Restore and Cleanup");
    reveal_strlit("--restore");
    reveal_strlit("Restores files recorded in a Nightkrawler quarantine manifest to their original paths.");
    reveal_strlit("nk --restore ~/nk-quarantine");
    lemma_runs_73();
    lemma_runs_74();
    lemma_runs_75();
    lemma_runs_76();
    lemma_runs_77();
}

#[verifier::spinoff_prover]
proof fn lemma_manual_blocks_12_short(os: TargetOs)
    ensures
        blocks_short(manual_blocks_12(os), 36, 40, 0),
{
    reveal_strlit("The short form");
    reveal_strlit("-u");
    reveal_strlit("may be used instead of");
    reveal_strlit("--restore.");
    reveal_strlit("If the original path already exists, that record is skipped rather than overwritten.");
    reveal_strlit("If the original parent directory no longer exists, Nightkrawler recreates the required directory path before restoring the file.");
    reveal_strlit("Restore copies files back to their original locations. The quarantine remains available until it is cleaned separately.");
    reveal_strlit("--cleanup");
    reveal_strlit("Removes a recognized Nightkrawler quarantine directory after it is no longer needed.");
    reveal_strlit("nk --cleanup ~/nk-quarantine");
    reveal_strlit("-c");
    reveal_strlit("--cleanup.");
    lemma_runs_78();
    lemma_runs_79();
    lemma_runs_80();
    lemma_runs_81();
}

#[verifier::spinoff_prover]
proof fn lemma_manual_blocks_13_short(os: TargetOs)
    ensures
        blocks_short(manual_blocks_13(os), 36, 40, 0),
{
    reveal_strlit("Cleanup is deliberately guarded against dangerous targets. Nightkrawler refuses to clean the filesystem root, the user's home directory, or the current working directory.");
    reveal_strlit("A missing or empty quarantine is treated as having nothing to clean rather than as a destructive cleanup operation.");
    reveal_strlit("Before removing a populated directory, cleanup verifies that the directory contains a recognized Nightkrawler quarantine manifest.");
    reveal_strlit("Reports");
    reveal_strlit("When duplicate groups are found, Nightkrawler writes a detailed text report after processing the scan.");
    reveal_strlit("Without");
    reveal_strlit("--report");
    reveal_strlit("or");
    reveal_strlit("-r,");
    reveal_strlit("the report is created in the current directory with an automatically generated filename.");
    reveal_strlit("If");
    reveal_strlit("points to an existing directory, Nightkrawler places an automatically named report inside that directory. Otherwise, the supplied path is used as the report filename.");
    reveal_strlit("Reports include scan date, operating system, architecture, hostname, scan duration, scan root, minimum size, recursive state, action mode, keeper policy, excluded paths, protected paths, duplicate groups, keeper paths, removable candidates, and reclaimable space.");
    lemma_runs_82();
    lemma_runs_83();
    lemma_runs_84();
    lemma_runs_85();
    lemma_runs_86();
    lemma_runs_87();
    lemma_runs_88();
}

#[verifier::spinoff_prover]
proof fn lemma_manual_blocks_14_short(os: TargetOs)
    ensures
        blocks_short(manual_blocks_14(os), 36, 40, 0),
{
    reveal_strlit("Duplicate groups are divided into");
    reveal_strlit("Protected, Generated,");
    reveal_strlit("and");
    reveal_strlit("Ordinary");
    reveal_strlit("sections when those classifications are present.");
    reveal_strlit("When quarantine was used, the report also records the number of copied files and the quarantine location.");
    reveal_strlit("Safety");
    reveal_strlit("Nightkrawler is designed so that inspection and action remain separate. A normal scan reports duplicate candidates without changing files.");
    reveal_strlit("One file from every verified duplicate group is selected as the keeper. Trash and delete operate only on the remaining removable members.");
    reveal_strlit("Nightkrawler does not follow symbolic links.");
    reveal_strlit("Dot-directories are skipped recursively unless");
    reveal_strlit("--force-dotdirs");
    reveal_strlit("is explicitly supplied.");
    reveal_strlit("Protected removable candidates stop action modes unless");
    reveal_strlit("--allow-protected");
    reveal_strlit("was supplied.");
    lemma_runs_89();
    lemma_runs_90();
    lemma_runs_91();
    lemma_runs_92();
    lemma_runs_93();
    lemma_runs_94();
    lemma_runs_95();
}

#[verifier::spinoff_prover]
proof fn lemma_manual_blocks_15_short(os: TargetOs)
    ensures
        blocks_short(manual_blocks_15(os), 36, 40, 0),
{
    reveal_strlit("Quarantine checks available space before copying. When quarantine precedes Trash or delete, the destructive stage is refused unless the quarantine copy completed cleanly.");
    reveal_strlit("--interactive");
    reveal_strlit("offers each removable candidate individually before Trash or permanent deletion.");
    reveal_strlit("Restoration never overwrites an existing original path. Existing destinations are counted as skipped.");
    reveal_strlit("Cleanup contains additional target guards because removing an entire directory tree carries different risks from ordinary duplicate processing.");
    reveal_strlit("Examples");
    reveal_strlit("Report duplicate files 100MB or larger under");
    reveal_strlit("~/Downloads:");
    reveal_strlit("nk ~/Downloads --min-size 100M");
    reveal_strlit("Scan recursively and exclude selected directory trees:");
    reveal_strlit("nk ~ -R --min-size 100M -E ~/bin ~/PycharmProjects ~/snap");
    reveal_strlit("Prefer keeping matching files under");
    reveal_strlit("~/DevX");
    reveal_strlit("before");
    reveal_strlit("~/Documents:");
    reveal_strlit("nk ~ -R --min-size 100M -p ~/DevX ~/Documents");
    lemma_runs_96();
    lemma_runs_97();
    lemma_runs_98();
    lemma_runs_99();
    lemma_runs_100();
    lemma_runs_101();
    lemma_runs_102();
    lemma_runs_103();
}

#[verifier::spinoff_prover]
proof fn lemma_manual_blocks_16_short(os: TargetOs)
    ensures
        blocks_short(manual_blocks_16(os), 36, 40, 0),
{
    reveal_strlit("Create recoverable quarantine copies without changing the originals:");
    reveal_strlit("nk ~/Downloads -R --min-size 100M -q ~/nk-quarantine");
    reveal_strlit("Quarantine removable duplicates first, then offer each original for permanent deletion:");
    reveal_strlit("nk ~/Downloads -R --min-size 100M -q ~/nk-quarantine -d -i");
    reveal_strlit("Restore files from a Nightkrawler quarantine:");
    reveal_strlit("nk --restore ~/nk-quarantine");
    reveal_strlit("Remove a quarantine after it is no longer needed:");
    reveal_strlit("nk --cleanup ~/nk-quarantine");
    reveal_strlit("For a compact command reference, use");
    reveal_strlit("--help.");
    reveal_strlit("For focused information about ordinary, generated, and protected classifications, use");
    reveal_strlit("--classification-help.");
    lemma_runs_104();
    lemma_runs_69();
    lemma_runs_105();
    lemma_runs_106();
    lemma_runs_107();
    lemma_runs_108();
    lemma_runs_109();
}

#[verifier::spinoff_prover]
proof fn lemma_classification_blocks_1_short(os: TargetOs)
    ensures
        blocks_short(classification_blocks_1(os), 36, 40, 0),
{
    reveal_strlit("Nightkrawler Classification Help");
    reveal_strlit("Nightkrawler classifies duplicate paths as");
    reveal_strlit("ordinary, generated,");
    reveal_strlit("or");
    reveal_strlit("protected.");
    reveal_strlit("Classification helps make scan results easier to evaluate and adds safety around filesystem areas that deserve additional protection.");
    reveal_strlit("Classes");
    reveal_strlit("Ordinary");
    reveal_strlit("An ordinary path does not belong to a generated or protected tree. Most normal user files will fall into this class.");
    reveal_strlit("Generated");
    reveal_strlit("A generated path contains a directory name commonly associated with generated, cached, or rebuildable content.");
    lemma_runs_27();
    lemma_runs_110();
    lemma_runs_111();
    lemma_runs_112();
}

#[verifier::spinoff_prover]
proof fn lemma_classification_blocks_2_short(os: TargetOs)
    ensures
        blocks_short(classification_blocks_2(os), 36, 40, 0),
{
    reveal_strlit("Recognized generated directory names include");
    reveal_strlit("target, build, dist, .cache, __pycache__, node_modules,");
    reveal_strlit("and");
    reveal_strlit(".gradle.");
    reveal_strlit("Generated classification does not automatically remove or ignore a file. It is a classification used for reporting and evaluation.");
    reveal_strlit("Protected");
    reveal_strlit("A protected path belongs to a filesystem tree where Nightkrawler action modes require explicit permission before operating on removable duplicate candidates.");
    reveal_strlit("Built-in protected roots include");
    reveal_strlit("/boot, /etc,");
    reveal_strlit("/root.");
    reveal_strlit("On FreeBSD,");
    reveal_strlit("/usr/local/etc");
    reveal_strlit("is protected by default.");
    lemma_runs_113();
    lemma_runs_31();
    lemma_runs_114();
    lemma_runs_115();
}

#[verifier::spinoff_prover]
proof fn lemma_classification_blocks_3_short(os: TargetOs)
    ensures
        blocks_short(classification_blocks_3(os), 36, 40, 0),
{
    reveal_strlit("On NetBSD,");
    reveal_strlit("/usr/pkg/etc");
    reveal_strlit("is protected by default.");
    reveal_strlit("When");
    reveal_strlit("HOME");
    reveal_strlit("is available, Nightkrawler also protects");
    reveal_strlit("~/.ssh, ~/.gnupg,");
    reveal_strlit("and");
    reveal_strlit("~/.config.");
    reveal_strlit("Group Classification");
    reveal_strlit("Classification applies to complete duplicate groups as well as individual paths. If a group contains members from different classes, Nightkrawler reports the group using the most restrictive class present.");
    reveal_strlit("Protected");
    reveal_strlit("takes precedence over");
    reveal_strlit("Generated,");
    reveal_strlit("which takes precedence over");
    reveal_strlit("Ordinary.");
    lemma_runs_34();
    lemma_runs_116();
}

#[verifier::spinoff_prover]
proof fn lemma_classification_blocks_4_short(os: TargetOs)
    ensures
        blocks_short(classification_blocks_4(os), 36, 40, 0),
{
    reveal_strlit("Custom Protection");
    reveal_strlit("Use");
    reveal_strlit("--protect");
    reveal_strlit("or");
    reveal_strlit("-P");
    reveal_strlit("to add one or more protected directory trees for the current scan.");
    reveal_strlit("nk ~ -R --min-size 100M --protect ~/.sensitive ~/important");
    reveal_strlit("Protection is not the same as exclusion. A path supplied with");
    reveal_strlit("--exclude");
    reveal_strlit("is not scanned. A path supplied with");
    reveal_strlit("may still be scanned, classified, and reported.");
    reveal_strlit("Protection and Actions");
    reveal_strlit("Report-only scans do not require");
    reveal_strlit("--allow-protected.");
    reveal_strlit("Protected duplicate groups may still be inspected and reported normally.");
    lemma_runs_117();
    lemma_runs_118();
    lemma_runs_119();
    lemma_runs_120();
    lemma_runs_121();
}

#[verifier::spinoff_prover]
proof fn lemma_classification_blocks_5_short(os: TargetOs)
    ensures
        blocks_short(classification_blocks_5(os), 36, 40, 0),
{
    reveal_strlit("If");
    reveal_strlit("--quarantine, --trash,");
    reveal_strlit("or");
    reveal_strlit("--delete");
    reveal_strlit("would act on a protected removable candidate, Nightkrawler performs a safety stop unless");
    reveal_strlit("--allow-protected");
    reveal_strlit("was supplied.");
    reveal_strlit("The safety stop reports the protected candidate, its protected root, and the scan path. The refused action does not change original files.");
    reveal_strlit("is an explicit override. It tells Nightkrawler that action on protected removable candidates is intentional.");
    reveal_strlit("Examples");
    reveal_strlit("Scan normally while treating");
    reveal_strlit("~/.sensitive");
    reveal_strlit("as protected:");
    reveal_strlit("nk ~ -R --min-size 100M --protect ~/.sensitive");
    reveal_strlit("Scan");
    reveal_strlit("/");
    reveal_strlit("and explicitly permit quarantine action on protected candidates:");
    reveal_strlit("nk / -R --min-size 100M -q /tmp/q --allow-protected");
    reveal_strlit("Exclude a tree entirely instead of protecting it:");
    reveal_strlit("nk ~ -R --min-size 100M --exclude ~/.cache");
    reveal_strlit("For the complete Nightkrawler documentation, use");
    reveal_strlit("--manual.");
    lemma_runs_122();
    lemma_runs_123();
    lemma_runs_124();
    lemma_runs_53();
    lemma_runs_125();
    lemma_runs_126();
    lemma_runs_127();
    lemma_runs_128();
    lemma_runs_129();
}

#[verifier::spinoff_prover]
proof fn lemma_classification_blocks_6_short(os: TargetOs)
    ensures
        blocks_short(classification_blocks_6(os), 36, 40, 0),
{
}

/// Every block of the help is short.
pub proof fn lemma_help_blocks_short()
    ensures
        blocks_short(help_blocks(), 80, 60, 59),
{
    lemma_help_blocks_1_short();
    lemma_help_blocks_2_short();
    lemma_help_blocks_3_short();
    lemma_help_blocks_4_short();
    lemma_help_blocks_5_short();
    lemma_help_blocks_6_short();
    lemma_help_blocks_7_short();
    lemma_help_blocks_8_short();
    lemma_help_blocks_9_short();
    lemma_help_blocks_10_short();
    lemma_short_concat(help_blocks_1(), help_blocks_2(), 80, 60, 59);
    lemma_short_concat(help_blocks_1() + help_blocks_2(), help_blocks_3(), 80, 60, 59);
    lemma_short_concat(help_blocks_1() + help_blocks_2() + help_blocks_3(), help_blocks_4(), 80, 60, 59);
    lemma_short_concat(help_blocks_1() + help_blocks_2() + help_blocks_3() + help_blocks_4(), help_blocks_5(), 80, 60, 59);
    lemma_short_concat(help_blocks_1() + help_blocks_2() + help_blocks_3() + help_blocks_4() + help_blocks_5(), help_blocks_6(), 80, 60, 59);
    lemma_short_concat(help_blocks_1() + help_blocks_2() + help_blocks_3() + help_blocks_4() + help_blocks_5() + help_blocks_6(), help_blocks_7(), 80, 60, 59);
    lemma_short_concat(help_blocks_1() + help_blocks_2() + help_blocks_3() + help_blocks_4() + help_blocks_5() + help_blocks_6() + help_blocks_7(), help_blocks_8(), 80, 60, 59);
    lemma_short_concat(help_blocks_1() + help_blocks_2() + help_blocks_3() + help_blocks_4() + help_blocks_5() + help_blocks_6() + help_blocks_7() + help_blocks_8(), help_blocks_9(), 80, 60, 59);
    lemma_short_concat(help_blocks_1() + help_blocks_2() + help_blocks_3() + help_blocks_4() + help_blocks_5() + help_blocks_6() + help_blocks_7() + help_blocks_8() + help_blocks_9(), help_blocks_10(), 80, 60, 59);
}

/// Every block of the manual is short.
pub proof fn lemma_manual_blocks_short(os: TargetOs)
    ensures
        blocks_short(manual_blocks(os), 36, 40, 0),
{
    lemma_manual_blocks_1_short(os);
    lemma_manual_blocks_2_short(os);
    lemma_manual_blocks_3_short(os);
    lemma_manual_blocks_4_short(os);
    lemma_manual_blocks_5_short(os);
    lemma_manual_blocks_6_short(os);
    lemma_manual_blocks_7_short(os);
    lemma_manual_blocks_8_short(os);
    lemma_manual_blocks_9_short(os);
    lemma_manual_blocks_10_short(os);
    lemma_manual_blocks_11_short(os);
    lemma_manual_blocks_12_short(os);
    lemma_manual_blocks_13_short(os);
    lemma_manual_blocks_14_short(os);
    lemma_manual_blocks_15_short(os);
    lemma_manual_blocks_16_short(os);
    lemma_short_concat(manual_blocks_1(os), manual_blocks_2(os), 36, 40, 0);
    lemma_short_concat(manual_blocks_1(os) + manual_blocks_2(os), manual_blocks_3(os), 36, 40, 0);
    lemma_short_concat(manual_blocks_1(os) + manual_blocks_2(os) + manual_blocks_3(os), manual_blocks_4(os), 36, 40, 0);
    lemma_short_concat(manual_blocks_1(os) + manual_blocks_2(os) + manual_blocks_3(os) + manual_blocks_4(os), manual_blocks_5(os), 36, 40, 0);
    lemma_short_concat(manual_blocks_1(os) + manual_blocks_2(os) + manual_blocks_3(os) + manual_blocks_4(os) + manual_blocks_5(os), manual_blocks_6(os), 36, 40, 0);
    lemma_short_concat(manual_blocks_1(os) + manual_blocks_2(os) + manual_blocks_3(os) + manual_blocks_4(os) + manual_blocks_5(os) + manual_blocks_6(os), manual_blocks_7(os), 36, 40, 0);
    lemma_short_concat(manual_blocks_1(os) + manual_blocks_2(os) + manual_blocks_3(os) + manual_blocks_4(os) + manual_blocks_5(os) + manual_blocks_6(os) + manual_blocks_7(os), manual_blocks_8(os), 36, 40, 0);
    lemma_short_concat(manual_blocks_1(os) + manual_blocks_2(os) + manual_blocks_3(os) + manual_blocks_4(os) + manual_blocks_5(os) + manual_blocks_6(os) + manual_blocks_7(os) + manual_blocks_8(os), manual_blocks_9(os), 36, 40, 0);
    lemma_short_concat(manual_blocks_1(os) + manual_blocks_2(os) + manual_blocks_3(os) + manual_blocks_4(os) + manual_blocks_5(os) + manual_blocks_6(os) + manual_blocks_7(os) + manual_blocks_8(os) + manual_blocks_9(os), manual_blocks_10(os), 36, 40, 0);
    lemma_short_concat(manual_blocks_1(os) + manual_blocks_2(os) + manual_blocks_3(os) + manual_blocks_4(os) + manual_blocks_5(os) + manual_blocks_6(os) + manual_blocks_7(os) + manual_blocks_8(os) + manual_blocks_9(os) + manual_blocks_10(os), manual_blocks_11(os), 36, 40, 0);
    lemma_short_concat(manual_blocks_1(os) + manual_blocks_2(os) + manual_blocks_3(os) + manual_blocks_4(os) + manual_blocks_5(os) + manual_blocks_6(os) + manual_blocks_7(os) + manual_blocks_8(os) + manual_blocks_9(os) + manual_blocks_10(os) + manual_blocks_11(os), manual_blocks_12(os), 36, 40, 0);
    lemma_short_concat(manual_blocks_1(os) + manual_blocks_2(os) + manual_blocks_3(os) + manual_blocks_4(os) + manual_blocks_5(os) + manual_blocks_6(os) + manual_blocks_7(os) + manual_blocks_8(os) + manual_blocks_9(os) + manual_blocks_10(os) + manual_blocks_11(os) + manual_blocks_12(os), manual_blocks_13(os), 36, 40, 0);
    lemma_short_concat(manual_blocks_1(os) + manual_blocks_2(os) + manual_blocks_3(os) + manual_blocks_4(os) + manual_blocks_5(os) + manual_blocks_6(os) + manual_blocks_7(os) + manual_blocks_8(os) + manual_blocks_9(os) + manual_blocks_10(os) + manual_blocks_11(os) + manual_blocks_12(os) + manual_blocks_13(os), manual_blocks_14(os), 36, 40, 0);
    lemma_short_concat(manual_blocks_1(os) + manual_blocks_2(os) + manual_blocks_3(os) + manual_blocks_4(os) + manual_blocks_5(os) + manual_blocks_6(os) + manual_blocks_7(os) + manual_blocks_8(os) + manual_blocks_9(os) + manual_blocks_10(os) + manual_blocks_11(os) + manual_blocks_12(os) + manual_blocks_13(os) + manual_blocks_14(os), manual_blocks_15(os), 36, 40, 0);
    lemma_short_concat(manual_blocks_1(os) + manual_blocks_2(os) + manual_blocks_3(os) + manual_blocks_4(os) + manual_blocks_5(os) + manual_blocks_6(os) + manual_blocks_7(os) + manual_blocks_8(os) + manual_blocks_9(os) + manual_blocks_10(os) + manual_blocks_11(os) + manual_blocks_12(os) + manual_blocks_13(os) + manual_blocks_14(os) + manual_blocks_15(os), manual_blocks_16(os), 36, 40, 0);
}

/// Every block of the classification help is short.
pub proof fn lemma_classification_blocks_short(os: TargetOs)
    ensures
        blocks_short(classification_blocks(os), 36, 40, 0),
{
    lemma_classification_blocks_1_short(os);
    lemma_classification_blocks_2_short(os);
    lemma_classification_blocks_3_short(os);
    lemma_classification_blocks_4_short(os);
    lemma_classification_blocks_5_short(os);
    lemma_classification_blocks_6_short(os);
    lemma_short_concat(classification_blocks_1(os), classification_blocks_2(os), 36, 40, 0);
    lemma_short_concat(classification_blocks_1(os) + classification_blocks_2(os), classification_blocks_3(os), 36, 40, 0);
    lemma_short_concat(classification_blocks_1(os) + classification_blocks_2(os) + classification_blocks_3(os), classification_blocks_4(os), 36, 40, 0);
    lemma_short_concat(classification_blocks_1(os) + classification_blocks_2(os) + classification_blocks_3(os) + classification_blocks_4(os), classification_blocks_5(os), 36, 40, 0);
    lemma_short_concat(classification_blocks_1(os) + classification_blocks_2(os) + classification_blocks_3(os) + classification_blocks_4(os) + classification_blocks_5(os), classification_blocks_6(os), 36, 40, 0);
}

} // verus!
