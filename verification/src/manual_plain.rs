//! The texts of the help, the manual and the classification help hold no
//! escape character, so colours change no visible character of them.
use vstd::prelude::*;
use crate::classify::TargetOs;
use crate::manual::BlockView;
use crate::manual_text::{classification_blocks, classification_blocks_1, classification_blocks_2, classification_blocks_3, classification_blocks_4, classification_blocks_5, classification_blocks_6, help_blocks, help_blocks_1, help_blocks_10, help_blocks_2, help_blocks_3, help_blocks_4, help_blocks_5, help_blocks_6, help_blocks_7, help_blocks_8, help_blocks_9, manual_blocks, manual_blocks_1, manual_blocks_10, manual_blocks_11, manual_blocks_12, manual_blocks_13, manual_blocks_14, manual_blocks_15, manual_blocks_16, manual_blocks_2, manual_blocks_3, manual_blocks_4, manual_blocks_5, manual_blocks_6, manual_blocks_7, manual_blocks_8, manual_blocks_9};
use crate::plain_text::block_esc_free;

verus! {

/// Whether no text of any of the blocks holds an escape character.
pub open spec fn blocks_esc_free(bs: Seq<BlockView>) -> bool {
    forall|i: int| 0 <= i < bs.len() ==> block_esc_free(#[trigger] bs[i])
}

proof fn lemma_esc_free_concat(a: Seq<BlockView>, b: Seq<BlockView>)
    requires
        blocks_esc_free(a),
        blocks_esc_free(b),
    ensures
        blocks_esc_free(a + b),
{
    assert forall|i: int| 0 <= i < (a + b).len() implies block_esc_free(#[trigger] (a + b)[i]) by {
        if i < a.len() {
            assert((a + b)[i] == a[i]);
        } else {
            assert((a + b)[i] == b[i - a.len()]);
        }
    }
}

#[verifier::spinoff_prover]
proof fn lemma_help_blocks_1_esc_free()
    ensures
        blocks_esc_free(help_blocks_1()),
{
    reveal_strlit("nightkrawler - duplicate file finder and removal tool");
    reveal_strlit("Usage:");
    reveal_strlit("nk");
    reveal_strlit("PATH");
    reveal_strlit("--min-size");
    reveal_strlit("SIZE");
    reveal_strlit("[options]");
    reveal_strlit("nightkrawler");
}

#[verifier::spinoff_prover]
proof fn lemma_help_blocks_2_esc_free()
    ensures
        blocks_esc_free(help_blocks_2()),
{
    reveal_strlit("Meta:");
    reveal_strlit("-h, --help");
    reveal_strlit("Show this help text");
    reveal_strlit("-v, --version");
    reveal_strlit("Show version info");
    reveal_strlit("--manual");
    reveal_strlit("Show extensive manual");
    reveal_strlit("--classification-help");
    reveal_strlit("Show help on classification");
    reveal_strlit("--no-colors");
    reveal_strlit("Disable colored output");
}

#[verifier::spinoff_prover]
proof fn lemma_help_blocks_3_esc_free()
    ensures
        blocks_esc_free(help_blocks_3()),
{
    reveal_strlit("Options:");
    reveal_strlit("--min-size SIZE");
    reveal_strlit("Required. Ignore files smaller than SIZE: 100K, 10M, 1G");
    reveal_strlit("--exclude, -E PATH");
    reveal_strlit("Exclude one or more paths");
    reveal_strlit("--protect, -P PATH");
    reveal_strlit("Protect one or more paths from action modes");
    reveal_strlit("--allow-protected");
    reveal_strlit("Allow action modes on protected paths");
}

#[verifier::spinoff_prover]
proof fn lemma_help_blocks_4_esc_free()
    ensures
        blocks_esc_free(help_blocks_4()),
{
    reveal_strlit("--prefer PATH...");
    reveal_strlit("Prefer keeping duplicate files under these paths");
    reveal_strlit("--force-dotdirs");
    reveal_strlit("Include dot-directories during recursive scans");
    reveal_strlit("--keep-highest-version");
    reveal_strlit("Prefer keeping files in highest version-like path");
    reveal_strlit("--recursive, -R");
    reveal_strlit("Scan recursively");
    reveal_strlit("--quarantine, -q PATH");
    reveal_strlit("Copy removable duplicate files into PATH");
    reveal_strlit("--trash, -t");
    reveal_strlit("Move removable duplicate files to system Trash");
    reveal_strlit("--delete, -d");
    reveal_strlit("Delete removable duplicate files");
    reveal_strlit("--interactive, -i");
    reveal_strlit("Ask before each destructive action");
}

#[verifier::spinoff_prover]
proof fn lemma_help_blocks_5_esc_free()
    ensures
        blocks_esc_free(help_blocks_5()),
{
    reveal_strlit("--restore, -u PATH");
    reveal_strlit("Restore files in quarantine; PATH must point to quarantine");
    reveal_strlit("--cleanup, -c");
    reveal_strlit("Empty quarantine files and remove its directory");
    reveal_strlit("--report, -r PATH");
    reveal_strlit("Write report to PATH; directories use an automatic filename");
    reveal_strlit("Safety:");
    reveal_strlit("Without");
    reveal_strlit("--quarantine, --trash, or --delete,");
    reveal_strlit("this version is report-only.");
}

#[verifier::spinoff_prover]
proof fn lemma_help_blocks_6_esc_free()
    ensures
        blocks_esc_free(help_blocks_6()),
{
    reveal_strlit("--quarantine");
    reveal_strlit("copies files instead of deleting them.");
    reveal_strlit("--trash");
    reveal_strlit("moves files to Trash, if available, for manual recovery through your file manager.");
    reveal_strlit("--delete");
    reveal_strlit("permanently removes files.");
    reveal_strlit("--interactive");
    reveal_strlit("asks before each trash or delete action.");
    reveal_strlit("--prefer");
    reveal_strlit("only changes which duplicate is kept.");
    reveal_strlit("If");
    reveal_strlit("and");
    reveal_strlit("are used together, files are copied first.");
}

#[verifier::spinoff_prover]
proof fn lemma_help_blocks_7_esc_free()
    ensures
        blocks_esc_free(help_blocks_7()),
{
    reveal_strlit("If quarantine copying fails or is skipped, trash or delete is refused.");
    reveal_strlit("Nightkrawler checks free space before copying.");
    reveal_strlit("It does not move files except when using");
    reveal_strlit("--trash.");
    reveal_strlit("It does not follow symlinks.");
    reveal_strlit("It skips dot-directories unless");
    reveal_strlit("--force-dotdirs");
    reveal_strlit("is used.");
    reveal_strlit("Protected high-level paths refuse action modes unless");
    reveal_strlit("--allow-protected");
}

#[verifier::spinoff_prover]
proof fn lemma_help_blocks_8_esc_free()
    ensures
        blocks_esc_free(help_blocks_8()),
{
    reveal_strlit("Examples:");
    reveal_strlit("Scan");
    reveal_strlit("~/Downloads");
    reveal_strlit("for files >=100MB. (Report only):");
    reveal_strlit("nk ~/Downloads --min-size 100M");
    reveal_strlit("for files >=100MB recursively. (Report only):");
    reveal_strlit("nk ~/Downloads --recursive --min-size 100M");
    reveal_strlit("~");
    reveal_strlit("recursively for files >=100MB. Exclude");
    reveal_strlit("~/bin, ~/PycharmProjects,");
    reveal_strlit("and");
    reveal_strlit("~/snap.");
    reveal_strlit("(Report only):");
    reveal_strlit("nk ~ --recursive --min-size 100M --exclude ~/bin ~/PycharmProjects ~/snap");
    reveal_strlit("recursively for files >=100MB and prefer keeping duplicates under");
    reveal_strlit("~/DevX");
    reveal_strlit("then");
    reveal_strlit("~/Documents.");
    reveal_strlit("nk ~ -R --min-size 100M --prefer ~/DevX ~/Documents");
    reveal_strlit("recursively for files >=100MB, prefer keeping duplicates under");
    reveal_strlit("~/DevX,");
    reveal_strlit("and copy removable duplicates to quarantine:");
    reveal_strlit("nk ~ -R --min-size 100M --prefer ~/DevX --quarantine ~/nk-quarantine");
    reveal_strlit("/");
    reveal_strlit("recursively for files 100MB or larger. (Report only):");
    reveal_strlit("nk / -R --min-size 100M");
}

#[verifier::spinoff_prover]
proof fn lemma_help_blocks_9_esc_free()
    ensures
        blocks_esc_free(help_blocks_9()),
{
    reveal_strlit("Scan");
    reveal_strlit("/");
    reveal_strlit("recursively for files 100MB or larger, quarantine removable duplicates to");
    reveal_strlit("/tmp/q,");
    reveal_strlit("and allow action on protected candidates:");
    reveal_strlit("nk / -R --min-size 100M -q /tmp/q --allow-protected");
    reveal_strlit("Scan the directory recursively, quarantine removable duplicates, then offer each original duplicate for deletion, while protecting");
    reveal_strlit("~/.sensitive.");
    reveal_strlit("(Files may be deleted!):");
    reveal_strlit("nk ~ --min-size 100M -q /tmp/q --protect ~/.sensitive -d --interactive");
    reveal_strlit("~/Downloads");
    reveal_strlit("for files 100MB or larger, then move removable duplicates to Trash:");
    reveal_strlit("nk ~/Downloads --recursive --min-size 100M --trash");
    reveal_strlit("recursively for files 100MB or larger and offer each removable duplicate for Trash interactively:");
    reveal_strlit("nk ~/Downloads --recursive --min-size 100M -t -i");
    reveal_strlit("Scan the directory recursively, quarantine removable duplicates, then move the original removable duplicates to Trash:");
    reveal_strlit("nk ~/Downloads --recursive --min-size 100M --quarantine ~/nk-quarantine -t");
    reveal_strlit("Scan the directory recursively and permanently delete removable duplicate files larger than 100MB:");
    reveal_strlit("nk ~/Downloads --recursive --min-size 100M --delete");
    reveal_strlit("Scan the directory recursively and offer each removable duplicate for deletion interactively:");
    reveal_strlit("nk ~/Downloads --recursive --min-size 100M -d -i");
    reveal_strlit("Scan the directory recursively, quarantine removable duplicates, then permanently delete the originals:");
    reveal_strlit("nk ~/Downloads --recursive --min-size 100M -q ~/nk-quarantine -d");
}

#[verifier::spinoff_prover]
proof fn lemma_help_blocks_10_esc_free()
    ensures
        blocks_esc_free(help_blocks_10()),
{
    reveal_strlit("Scan the directory recursively, quarantine removable duplicates, then offer each original removable duplicate for deletion:");
    reveal_strlit("nk ~/Downloads --recursive --min-size 100M -q ~/nk-quarantine -d -i");
    reveal_strlit("Note:");
    reveal_strlit("After the command has finished, Nightkrawler generates a report in the current directory or where specified by");
    reveal_strlit("-r, --report");
    reveal_strlit("PATH.");
    reveal_strlit("The report contains detailed information from the scan, quarantine, and Trash/delete process, as well as metadata about the scanned host.");
}

#[verifier::spinoff_prover]
proof fn lemma_manual_blocks_1_esc_free(os: TargetOs)
    ensures
        blocks_esc_free(manual_blocks_1(os)),
{
    reveal_strlit("Nightkrawler Manual");
    reveal_strlit("Nightkrawler is a duplicate file finder and removal tool designed around cautious inspection, explicit action modes, and recoverable workflows.");
    reveal_strlit("Overview");
    reveal_strlit("Nightkrawler scans regular files, groups files with identical content, chooses one file from each duplicate group to keep, and identifies the remaining copies as removable duplicates.");
    reveal_strlit("Without");
    reveal_strlit("--quarantine, --trash,");
    reveal_strlit("or");
    reveal_strlit("--delete,");
    reveal_strlit("Nightkrawler operates in report-only mode. It scans and reports duplicate groups without changing the original files.");
}

#[verifier::spinoff_prover]
proof fn lemma_manual_blocks_2_esc_free(os: TargetOs)
    ensures
        blocks_esc_free(manual_blocks_2(os)),
{
    reveal_strlit("A duplicate group always keeps one matching file. Action modes operate only on the removable members of the group.");
    reveal_strlit("Nightkrawler compares file contents rather than filenames. Files may have completely different names and still belong to the same duplicate group when their contents are identical.");
    reveal_strlit("Zero-byte files follow the same duplicate rule as every other regular file. If several zero-byte files form a duplicate group, one is kept and the others are treated as removable duplicates.");
    reveal_strlit("Usage");
    reveal_strlit("nk");
    reveal_strlit("PATH");
    reveal_strlit("--min-size");
    reveal_strlit("SIZE");
    reveal_strlit("[options]");
    reveal_strlit("nightkrawler");
}

#[verifier::spinoff_prover]
proof fn lemma_manual_blocks_3_esc_free(os: TargetOs)
    ensures
        blocks_esc_free(manual_blocks_3(os)),
{
    reveal_strlit("PATH");
    reveal_strlit("is the directory or file tree Nightkrawler will inspect. Only one scan path may be supplied.");
    reveal_strlit("--min-size");
    reveal_strlit("is required for scan commands. Files smaller than the selected threshold are ignored before duplicate comparison begins.");
    reveal_strlit("SIZE");
    reveal_strlit("accepts byte values or binary-style suffixes such as");
    reveal_strlit("100K, 10M, 1G,");
    reveal_strlit("and");
    reveal_strlit("1T.");
    reveal_strlit("The short command name");
    reveal_strlit("nk");
    reveal_strlit("and the full executable name");
    reveal_strlit("nightkrawler");
    reveal_strlit("refer to the same program when the short command is installed as a symlink or configured as a shell alias. Packaged installations should provide the");
    reveal_strlit("symlink automatically.");
    reveal_strlit("Scanning");
    reveal_strlit("Nightkrawler scans regular files only. Symbolic links are not followed and are not added to duplicate groups.");
    reveal_strlit("Without");
    reveal_strlit("--recursive");
    reveal_strlit("or");
    reveal_strlit("-R,");
    reveal_strlit("Nightkrawler inspects files directly under the selected scan path. Recursive mode descends into subdirectories.");
    reveal_strlit("Dot-directories are skipped during recursive scanning unless");
    reveal_strlit("--force-dotdirs");
    reveal_strlit("is supplied.");
}

#[verifier::spinoff_prover]
proof fn lemma_manual_blocks_4_esc_free(os: TargetOs)
    ensures
        blocks_esc_free(manual_blocks_4(os)),
{
    reveal_strlit("Paths supplied with");
    reveal_strlit("--exclude");
    reveal_strlit("or");
    reveal_strlit("-E");
    reveal_strlit("are omitted from scanning. Multiple excluded paths may be supplied after the option.");
    reveal_strlit("When a quarantine directory is configured, Nightkrawler also excludes that quarantine tree from the scan so copied quarantine files cannot immediately become duplicate candidates themselves.");
    reveal_strlit("Files are first grouped by size. Files with unique sizes require no further duplicate comparison. Matching-size candidates are hashed and then verified by direct byte comparison before they are accepted as identical.");
    reveal_strlit("This final byte comparison prevents a hash match alone from being treated as proof that two files are identical.");
    reveal_strlit("Classification");
    reveal_strlit("Nightkrawler classifies duplicate paths as");
    reveal_strlit("ordinary, generated,");
    reveal_strlit("protected.");
    reveal_strlit("Classification helps distinguish normal files from generated trees and filesystem areas that deserve additional protection.");
    reveal_strlit("Ordinary");
    reveal_strlit("An ordinary path is a file that does not fall under a generated or protected path rule.");
    reveal_strlit("Generated");
    reveal_strlit("Generated paths are recognized when their path contains common generated-directory names such as");
    reveal_strlit("target, build, dist, .cache, __pycache__, node_modules,");
    reveal_strlit(".gradle.");
}

#[verifier::spinoff_prover]
proof fn lemma_manual_blocks_5_esc_free(os: TargetOs)
    ensures
        blocks_esc_free(manual_blocks_5(os)),
{
    reveal_strlit("Generated classification does not automatically delete anything. It describes where the duplicate group was found and helps make reports easier to evaluate.");
    reveal_strlit("Protected");
    reveal_strlit("Protected paths are filesystem trees where action modes require explicit permission through");
    reveal_strlit("--allow-protected.");
    reveal_strlit("Built-in protected roots include");
    reveal_strlit("/boot, /etc,");
    reveal_strlit("and");
    reveal_strlit("/root.");
    reveal_strlit("On FreeBSD,");
    reveal_strlit("/usr/local/etc");
    reveal_strlit("is also protected by default.");
    reveal_strlit("On NetBSD,");
    reveal_strlit("/usr/pkg/etc");
    reveal_strlit("When");
    reveal_strlit("HOME");
    reveal_strlit("is available, Nightkrawler also protects");
    reveal_strlit("~/.ssh, ~/.gnupg,");
    reveal_strlit("~/.config.");
    reveal_strlit("Additional protected trees may be supplied with");
    reveal_strlit("--protect");
    reveal_strlit("or");
    reveal_strlit("-P.");
    reveal_strlit("If any file in a duplicate group belongs to a more restrictive classification, the group is reported using that classification.");
}

#[verifier::spinoff_prover]
proof fn lemma_manual_blocks_6_esc_free(os: TargetOs)
    ensures
        blocks_esc_free(manual_blocks_6(os)),
{
    reveal_strlit("For a shorter explanation focused only on classification, use");
    reveal_strlit("--classification-help.");
    reveal_strlit("Keeper Selection");
    reveal_strlit("Every duplicate group contains one file selected as the keeper. The remaining matching files become removable candidates.");
    reveal_strlit("Keeper selection never means that Nightkrawler considers the other files different. All members of the group have already been verified as identical by content.");
    reveal_strlit("Default policy");
    reveal_strlit("The default keeper policy uses deterministic path-based ordering. Files under locations commonly associated with temporary or replaceable content are less preferred than ordinary locations.");
    reveal_strlit("Examples of less-preferred locations include");
    reveal_strlit("Downloads, .cache, .cargo, .gradle,");
    reveal_strlit("and");
    reveal_strlit(".local/share.");
    reveal_strlit("When candidates remain tied, Nightkrawler uses path depth and pathname ordering to make the final choice reproducible.");
    reveal_strlit("--prefer");
    reveal_strlit("Use");
    reveal_strlit("or");
    reveal_strlit("-p");
    reveal_strlit("to give one or more directory trees explicit keeper priority.");
}

#[verifier::spinoff_prover]
proof fn lemma_manual_blocks_7_esc_free(os: TargetOs)
    ensures
        blocks_esc_free(manual_blocks_7(os)),
{
    reveal_strlit("Preferred paths are ordered. The first path has the highest priority, followed by the second, and so on.");
    reveal_strlit("nk ~ -R --min-size 100M --prefer ~/DevX ~/Documents");
    reveal_strlit("In this example, a matching file under");
    reveal_strlit("~/DevX");
    reveal_strlit("is preferred first. A matching file under");
    reveal_strlit("~/Documents");
    reveal_strlit("has the next priority.");
    reveal_strlit("--keep-highest-version");
    reveal_strlit("The");
    reveal_strlit("policy searches pathname components for version-like values such as");
    reveal_strlit("1.2, 2.0.1,");
    reveal_strlit("or");
    reveal_strlit("v3.4.");
    reveal_strlit("When version-like candidates are available, Nightkrawler prefers the file associated with the highest detected version. Other keeper rules are used to break ties or when no usable version is found.");
    reveal_strlit("Explicit");
    reveal_strlit("--prefer");
    reveal_strlit("paths take priority before the selected keeper policy is applied.");
    reveal_strlit("Protection");
}

#[verifier::spinoff_prover]
proof fn lemma_manual_blocks_8_esc_free(os: TargetOs)
    ensures
        blocks_esc_free(manual_blocks_8(os)),
{
    reveal_strlit("Protection is separate from exclusion. An excluded path is not scanned. A protected path may still be scanned and reported, but action modes are prevented from operating on protected candidates unless explicit permission is given.");
    reveal_strlit("Use");
    reveal_strlit("--protect");
    reveal_strlit("or");
    reveal_strlit("-P");
    reveal_strlit("to add one or more protected path trees for the current command.");
    reveal_strlit("nk ~ -R --min-size 100M --protect ~/.sensitive");
    reveal_strlit("The protected tree remains visible to classification and reporting. Protection becomes decisive when");
    reveal_strlit("--quarantine, --trash,");
    reveal_strlit("--delete");
    reveal_strlit("would act on a protected removable candidate.");
    reveal_strlit("If a protected removable candidate is found during an action mode, Nightkrawler performs a safety stop unless");
    reveal_strlit("--allow-protected");
    reveal_strlit("was supplied.");
    reveal_strlit("The safety stop identifies the protected candidate, the matching protected root, and the scan path. Original files are not changed by the refused action.");
    reveal_strlit("is therefore an explicit override. It should be used only when action on the protected candidates is intentional.");
}

#[verifier::spinoff_prover]
proof fn lemma_manual_blocks_9_esc_free(os: TargetOs)
    ensures
        blocks_esc_free(manual_blocks_9(os)),
{
    reveal_strlit("For ordinary report-only inspection,");
    reveal_strlit("--protect");
    reveal_strlit("is still useful because the classification and generated report will identify matching groups as protected.");
    reveal_strlit("Action Modes");
    reveal_strlit("Nightkrawler has three action modes:");
    reveal_strlit("--quarantine, --trash,");
    reveal_strlit("and");
    reveal_strlit("--delete.");
    reveal_strlit("Without an action mode, a scan is report-only.");
    reveal_strlit("--quarantine");
    reveal_strlit("Copies removable duplicates into a quarantine directory while leaving the original files in place.");
    reveal_strlit("--trash");
    reveal_strlit("Moves removable duplicates to the system Trash implementation.");
    reveal_strlit("--delete");
    reveal_strlit("Permanently removes removable duplicate files from their original locations.");
    reveal_strlit("are mutually exclusive. Choose one destructive action for a scan.");
    reveal_strlit("may be combined with either");
    reveal_strlit("or");
    reveal_strlit("In that workflow, Nightkrawler creates the quarantine copies before changing the originals.");
}

#[verifier::spinoff_prover]
proof fn lemma_manual_blocks_10_esc_free(os: TargetOs)
    ensures
        blocks_esc_free(manual_blocks_10(os)),
{
    reveal_strlit("--interactive");
    reveal_strlit("may be used with");
    reveal_strlit("--trash");
    reveal_strlit("or");
    reveal_strlit("--delete");
    reveal_strlit("to ask before each destructive action. It does not make quarantine copying interactive.");
    reveal_strlit("Quarantine");
    reveal_strlit("Quarantine is Nightkrawler's recoverable copy stage. Use");
    reveal_strlit("--quarantine");
    reveal_strlit("-q");
    reveal_strlit("followed by the directory where removable duplicate copies should be stored.");
    reveal_strlit("nk ~/Downloads -R --min-size 100M -q ~/nk-quarantine");
    reveal_strlit("Nightkrawler preserves the scanned path structure below the quarantine directory where possible. If a destination name already exists, a unique Nightkrawler suffix is added rather than overwriting the existing quarantine file.");
    reveal_strlit("Before copying begins, Nightkrawler calculates the total size of the removable duplicates and checks the available free space on the filesystem containing the quarantine directory.");
    reveal_strlit("If there is not enough free space, quarantine is refused before files are copied.");
}

#[verifier::spinoff_prover]
proof fn lemma_manual_blocks_11_esc_free(os: TargetOs)
    ensures
        blocks_esc_free(manual_blocks_11(os)),
{
    reveal_strlit("A quarantine manifest records the original path, quarantine path, and size of each copied file. The current manifest format stores Unix pathnames as their original bytes rather than relying on tab- or newline-separated text fields.");
    reveal_strlit("This allows valid Unix filenames containing tabs, newlines, spaces, or non-UTF-8 pathname bytes to be represented without using those characters as field separators.");
    reveal_strlit("When quarantine is combined with");
    reveal_strlit("--trash");
    reveal_strlit("or");
    reveal_strlit("--delete,");
    reveal_strlit("the destructive stage is allowed to proceed only if all intended quarantine copies completed successfully.");
    reveal_strlit("If quarantine copying fails or is incomplete, Nightkrawler performs a safety stop and refuses the Trash or delete stage. Original files are left unchanged by the refused destructive action.");
    reveal_strlit("Restore and Cleanup");
    reveal_strlit("--restore");
    reveal_strlit("Restores files recorded in a Nightkrawler quarantine manifest to their original paths.");
    reveal_strlit("nk --restore ~/nk-quarantine");
}

#[verifier::spinoff_prover]
proof fn lemma_manual_blocks_12_esc_free(os: TargetOs)
    ensures
        blocks_esc_free(manual_blocks_12(os)),
{
    reveal_strlit("The short form");
    reveal_strlit("-u");
    reveal_strlit("may be used instead of");
    reveal_strlit("--restore.");
    reveal_strlit("If the original path already exists, that record is skipped rather than overwritten.");
    reveal_strlit("If the original parent directory no longer exists, Nightkrawler recreates the required directory path before restoring the file.");
    reveal_strlit("Restore copies files back to their original locations. The quarantine remains available until it is cleaned separately.");
    reveal_strlit("--cleanup");
    reveal_strlit("Removes a recognized Nightkrawler quarantine directory after it is no longer needed.");
    reveal_strlit("nk --cleanup ~/nk-quarantine");
    reveal_strlit("-c");
    reveal_strlit("--cleanup.");
}

#[verifier::spinoff_prover]
proof fn lemma_manual_blocks_13_esc_free(os: TargetOs)
    ensures
        blocks_esc_free(manual_blocks_13(os)),
{
    reveal_strlit("Cleanup is deliberately guarded against dangerous targets. Nightkrawler refuses to clean the filesystem root, the user's home directory, or the current working directory.");
    reveal_strlit("A missing or empty quarantine is treated as having nothing to clean rather than as a destructive cleanup operation.");
    reveal_strlit("Before removing a populated directory, cleanup verifies that the directory contains a recognized Nightkrawler quarantine manifest.");
    reveal_strlit("Reports");
    reveal_strlit("When duplicate groups are found, Nightkrawler writes a detailed text report after processing the scan.");
    reveal_strlit("Without");
    reveal_strlit("--report");
    reveal_strlit("or");
    reveal_strlit("-r,");
    reveal_strlit("the report is created in the current directory with an automatically generated filename.");
    reveal_strlit("If");
    reveal_strlit("points to an existing directory, Nightkrawler places an automatically named report inside that directory. Otherwise, the supplied path is used as the report filename.");
    reveal_strlit("Reports include scan date, operating system, architecture, hostname, scan duration, scan root, minimum size, recursive state, action mode, keeper policy, excluded paths, protected paths, duplicate groups, keeper paths, removable candidates, and reclaimable space.");
}

#[verifier::spinoff_prover]
proof fn lemma_manual_blocks_14_esc_free(os: TargetOs)
    ensures
        blocks_esc_free(manual_blocks_14(os)),
{
    reveal_strlit("Duplicate groups are divided into");
    reveal_strlit("Protected, Generated,");
    reveal_strlit("and");
    reveal_strlit("Ordinary");
    reveal_strlit("sections when those classifications are present.");
    reveal_strlit("When quarantine was used, the report also records the number of copied files and the quarantine location.");
    reveal_strlit("Safety");
    reveal_strlit("Nightkrawler is designed so that inspection and action remain separate. A normal scan reports duplicate candidates without changing files.");
    reveal_strlit("One file from every verified duplicate group is selected as the keeper. Trash and delete operate only on the remaining removable members.");
    reveal_strlit("Nightkrawler does not follow symbolic links.");
    reveal_strlit("Dot-directories are skipped recursively unless");
    reveal_strlit("--force-dotdirs");
    reveal_strlit("is explicitly supplied.");
    reveal_strlit("Protected removable candidates stop action modes unless");
    reveal_strlit("--allow-protected");
    reveal_strlit("was supplied.");
}

#[verifier::spinoff_prover]
proof fn lemma_manual_blocks_15_esc_free(os: TargetOs)
    ensures
        blocks_esc_free(manual_blocks_15(os)),
{
    reveal_strlit("Quarantine checks available space before copying. When quarantine precedes Trash or delete, the destructive stage is refused unless the quarantine copy completed cleanly.");
    reveal_strlit("--interactive");
    reveal_strlit("offers each removable candidate individually before Trash or permanent deletion.");
    reveal_strlit("Restoration never overwrites an existing original path. Existing destinations are counted as skipped.");
    reveal_strlit("Cleanup contains additional target guards because removing an entire directory tree carries different risks from ordinary duplicate processing.");
    reveal_strlit("Examples");
    reveal_strlit("Report duplicate files 100MB or larger under");
    reveal_strlit("~/Downloads:");
    reveal_strlit("nk ~/Downloads --min-size 100M");
    reveal_strlit("Scan recursively and exclude selected directory trees:");
    reveal_strlit("nk ~ -R --min-size 100M -E ~/bin ~/PycharmProjects ~/snap");
    reveal_strlit("Prefer keeping matching files under");
    reveal_strlit("~/DevX");
    reveal_strlit("before");
    reveal_strlit("~/Documents:");
    reveal_strlit("nk ~ -R --min-size 100M -p ~/DevX ~/Documents");
}

#[verifier::spinoff_prover]
proof fn lemma_manual_blocks_16_esc_free(os: TargetOs)
    ensures
        blocks_esc_free(manual_blocks_16(os)),
{
    reveal_strlit("Create recoverable quarantine copies without changing the originals:");
    reveal_strlit("nk ~/Downloads -R --min-size 100M -q ~/nk-quarantine");
    reveal_strlit("Quarantine removable duplicates first, then offer each original for permanent deletion:");
    reveal_strlit("nk ~/Downloads -R --min-size 100M -q ~/nk-quarantine -d -i");
    reveal_strlit("Restore files from a Nightkrawler quarantine:");
    reveal_strlit("nk --restore ~/nk-quarantine");
    reveal_strlit("Remove a quarantine after it is no longer needed:");
    reveal_strlit("nk --cleanup ~/nk-quarantine");
    reveal_strlit("For a compact command reference, use");
    reveal_strlit("--help.");
    reveal_strlit("For focused information about ordinary, generated, and protected classifications, use");
    reveal_strlit("--classification-help.");
}

#[verifier::spinoff_prover]
proof fn lemma_classification_blocks_1_esc_free(os: TargetOs)
    ensures
        blocks_esc_free(classification_blocks_1(os)),
{
    reveal_strlit("Nightkrawler Classification Help");
    reveal_strlit("Nightkrawler classifies duplicate paths as");
    reveal_strlit("ordinary, generated,");
    reveal_strlit("or");
    reveal_strlit("protected.");
    reveal_strlit("Classification helps make scan results easier to evaluate and adds safety around filesystem areas that deserve additional protection.");
    reveal_strlit("Classes");
    reveal_strlit("Ordinary");
    reveal_strlit("An ordinary path does not belong to a generated or protected tree. Most normal user files will fall into this class.");
    reveal_strlit("Generated");
    reveal_strlit("A generated path contains a directory name commonly associated with generated, cached, or rebuildable content.");
}

#[verifier::spinoff_prover]
proof fn lemma_classification_blocks_2_esc_free(os: TargetOs)
    ensures
        blocks_esc_free(classification_blocks_2(os)),
{
    reveal_strlit("Recognized generated directory names include");
    reveal_strlit("target, build, dist, .cache, __pycache__, node_modules,");
    reveal_strlit("and");
    reveal_strlit(".gradle.");
    reveal_strlit("Generated classification does not automatically remove or ignore a file. It is a classification used for reporting and evaluation.");
    reveal_strlit("Protected");
    reveal_strlit("A protected path belongs to a filesystem tree where Nightkrawler action modes require explicit permission before operating on removable duplicate candidates.");
    reveal_strlit("Built-in protected roots include");
    reveal_strlit("/boot, /etc,");
    reveal_strlit("/root.");
    reveal_strlit("On FreeBSD,");
    reveal_strlit("/usr/local/etc");
    reveal_strlit("is protected by default.");
}

#[verifier::spinoff_prover]
proof fn lemma_classification_blocks_3_esc_free(os: TargetOs)
    ensures
        blocks_esc_free(classification_blocks_3(os)),
{
    reveal_strlit("On NetBSD,");
    reveal_strlit("/usr/pkg/etc");
    reveal_strlit("is protected by default.");
    reveal_strlit("When");
    reveal_strlit("HOME");
    reveal_strlit("is available, Nightkrawler also protects");
    reveal_strlit("~/.ssh, ~/.gnupg,");
    reveal_strlit("and");
    reveal_strlit("~/.config.");
    reveal_strlit("Group Classification");
    reveal_strlit("Classification applies to complete duplicate groups as well as individual paths. If a group contains members from different classes, Nightkrawler reports the group using the most restrictive class present.");
    reveal_strlit("Protected");
    reveal_strlit("takes precedence over");
    reveal_strlit("Generated,");
    reveal_strlit("which takes precedence over");
    reveal_strlit("Ordinary.");
}

#[verifier::spinoff_prover]
proof fn lemma_classification_blocks_4_esc_free(os: TargetOs)
    ensures
        blocks_esc_free(classification_blocks_4(os)),
{
    reveal_strlit("Custom Protection");
    reveal_strlit("Use");
    reveal_strlit("--protect");
    reveal_strlit("or");
    reveal_strlit("-P");
    reveal_strlit("to add one or more protected directory trees for the current scan.");
    reveal_strlit("nk ~ -R --min-size 100M --protect ~/.sensitive ~/important");
    reveal_strlit("Protection is not the same as exclusion. A path supplied with");
    reveal_strlit("--exclude");
    reveal_strlit("is not scanned. A path supplied with");
    reveal_strlit("may still be scanned, classified, and reported.");
    reveal_strlit("Protection and Actions");
    reveal_strlit("Report-only scans do not require");
    reveal_strlit("--allow-protected.");
    reveal_strlit("Protected duplicate groups may still be inspected and reported normally.");
}

#[verifier::spinoff_prover]
proof fn lemma_classification_blocks_5_esc_free(os: TargetOs)
    ensures
        blocks_esc_free(classification_blocks_5(os)),
{
    reveal_strlit("If");
    reveal_strlit("--quarantine, --trash,");
    reveal_strlit("or");
    reveal_strlit("--delete");
    reveal_strlit("would act on a protected removable candidate, Nightkrawler performs a safety stop unless");
    reveal_strlit("--allow-protected");
    reveal_strlit("was supplied.");
    reveal_strlit("The safety stop reports the protected candidate, its protected root, and the scan path. The refused action does not change original files.");
    reveal_strlit("is an explicit override. It tells Nightkrawler that action on protected removable candidates is intentional.");
    reveal_strlit("Examples");
    reveal_strlit("Scan normally while treating");
    reveal_strlit("~/.sensitive");
    reveal_strlit("as protected:");
    reveal_strlit("nk ~ -R --min-size 100M --protect ~/.sensitive");
    reveal_strlit("Scan");
    reveal_strlit("/");
    reveal_strlit("and explicitly permit quarantine action on protected candidates:");
    reveal_strlit("nk / -R --min-size 100M -q /tmp/q --allow-protected");
    reveal_strlit("Exclude a tree entirely instead of protecting it:");
    reveal_strlit("nk ~ -R --min-size 100M --exclude ~/.cache");
    reveal_strlit("For the complete Nightkrawler documentation, use");
    reveal_strlit("--manual.");
}

#[verifier::spinoff_prover]
proof fn lemma_classification_blocks_6_esc_free(os: TargetOs)
    ensures
        blocks_esc_free(classification_blocks_6(os)),
{
}

/// No text of the help holds an escape character.
pub proof fn lemma_help_blocks_esc_free()
    ensures
        blocks_esc_free(help_blocks()),
{
    lemma_help_blocks_1_esc_free();
    lemma_help_blocks_2_esc_free();
    lemma_help_blocks_3_esc_free();
    lemma_help_blocks_4_esc_free();
    lemma_help_blocks_5_esc_free();
    lemma_help_blocks_6_esc_free();
    lemma_help_blocks_7_esc_free();
    lemma_help_blocks_8_esc_free();
    lemma_help_blocks_9_esc_free();
    lemma_help_blocks_10_esc_free();
    lemma_esc_free_concat(help_blocks_1(), help_blocks_2());
    lemma_esc_free_concat(help_blocks_1() + help_blocks_2(), help_blocks_3());
    lemma_esc_free_concat(help_blocks_1() + help_blocks_2() + help_blocks_3(), help_blocks_4());
    lemma_esc_free_concat(help_blocks_1() + help_blocks_2() + help_blocks_3() + help_blocks_4(), help_blocks_5());
    lemma_esc_free_concat(help_blocks_1() + help_blocks_2() + help_blocks_3() + help_blocks_4() + help_blocks_5(), help_blocks_6());
    lemma_esc_free_concat(help_blocks_1() + help_blocks_2() + help_blocks_3() + help_blocks_4() + help_blocks_5() + help_blocks_6(), help_blocks_7());
    lemma_esc_free_concat(help_blocks_1() + help_blocks_2() + help_blocks_3() + help_blocks_4() + help_blocks_5() + help_blocks_6() + help_blocks_7(), help_blocks_8());
    lemma_esc_free_concat(help_blocks_1() + help_blocks_2() + help_blocks_3() + help_blocks_4() + help_blocks_5() + help_blocks_6() + help_blocks_7() + help_blocks_8(), help_blocks_9());
    lemma_esc_free_concat(help_blocks_1() + help_blocks_2() + help_blocks_3() + help_blocks_4() + help_blocks_5() + help_blocks_6() + help_blocks_7() + help_blocks_8() + help_blocks_9(), help_blocks_10());
}

/// No text of the manual holds an escape character.
pub proof fn lemma_manual_blocks_esc_free(os: TargetOs)
    ensures
        blocks_esc_free(manual_blocks(os)),
{
    lemma_manual_blocks_1_esc_free(os);
    lemma_manual_blocks_2_esc_free(os);
    lemma_manual_blocks_3_esc_free(os);
    lemma_manual_blocks_4_esc_free(os);
    lemma_manual_blocks_5_esc_free(os);
    lemma_manual_blocks_6_esc_free(os);
    lemma_manual_blocks_7_esc_free(os);
    lemma_manual_blocks_8_esc_free(os);
    lemma_manual_blocks_9_esc_free(os);
    lemma_manual_blocks_10_esc_free(os);
    lemma_manual_blocks_11_esc_free(os);
    lemma_manual_blocks_12_esc_free(os);
    lemma_manual_blocks_13_esc_free(os);
    lemma_manual_blocks_14_esc_free(os);
    lemma_manual_blocks_15_esc_free(os);
    lemma_manual_blocks_16_esc_free(os);
    lemma_esc_free_concat(manual_blocks_1(os), manual_blocks_2(os));
    lemma_esc_free_concat(manual_blocks_1(os) + manual_blocks_2(os), manual_blocks_3(os));
    lemma_esc_free_concat(manual_blocks_1(os) + manual_blocks_2(os) + manual_blocks_3(os), manual_blocks_4(os));
    lemma_esc_free_concat(manual_blocks_1(os) + manual_blocks_2(os) + manual_blocks_3(os) + manual_blocks_4(os), manual_blocks_5(os));
    lemma_esc_free_concat(manual_blocks_1(os) + manual_blocks_2(os) + manual_blocks_3(os) + manual_blocks_4(os) + manual_blocks_5(os), manual_blocks_6(os));
    lemma_esc_free_concat(manual_blocks_1(os) + manual_blocks_2(os) + manual_blocks_3(os) + manual_blocks_4(os) + manual_blocks_5(os) + manual_blocks_6(os), manual_blocks_7(os));
    lemma_esc_free_concat(manual_blocks_1(os) + manual_blocks_2(os) + manual_blocks_3(os) + manual_blocks_4(os) + manual_blocks_5(os) + manual_blocks_6(os) + manual_blocks_7(os), manual_blocks_8(os));
    lemma_esc_free_concat(manual_blocks_1(os) + manual_blocks_2(os) + manual_blocks_3(os) + manual_blocks_4(os) + manual_blocks_5(os) + manual_blocks_6(os) + manual_blocks_7(os) + manual_blocks_8(os), manual_blocks_9(os));
    lemma_esc_free_concat(manual_blocks_1(os) + manual_blocks_2(os) + manual_blocks_3(os) + manual_blocks_4(os) + manual_blocks_5(os) + manual_blocks_6(os) + manual_blocks_7(os) + manual_blocks_8(os) + manual_blocks_9(os), manual_blocks_10(os));
    lemma_esc_free_concat(manual_blocks_1(os) + manual_blocks_2(os) + manual_blocks_3(os) + manual_blocks_4(os) + manual_blocks_5(os) + manual_blocks_6(os) + manual_blocks_7(os) + manual_blocks_8(os) + manual_blocks_9(os) + manual_blocks_10(os), manual_blocks_11(os));
    lemma_esc_free_concat(manual_blocks_1(os) + manual_blocks_2(os) + manual_blocks_3(os) + manual_blocks_4(os) + manual_blocks_5(os) + manual_blocks_6(os) + manual_blocks_7(os) + manual_blocks_8(os) + manual_blocks_9(os) + manual_blocks_10(os) + manual_blocks_11(os), manual_blocks_12(os));
    lemma_esc_free_concat(manual_blocks_1(os) + manual_blocks_2(os) + manual_blocks_3(os) + manual_blocks_4(os) + manual_blocks_5(os) + manual_blocks_6(os) + manual_blocks_7(os) + manual_blocks_8(os) + manual_blocks_9(os) + manual_blocks_10(os) + manual_blocks_11(os) + manual_blocks_12(os), manual_blocks_13(os));
    lemma_esc_free_concat(manual_blocks_1(os) + manual_blocks_2(os) + manual_blocks_3(os) + manual_blocks_4(os) + manual_blocks_5(os) + manual_blocks_6(os) + manual_blocks_7(os) + manual_blocks_8(os) + manual_blocks_9(os) + manual_blocks_10(os) + manual_blocks_11(os) + manual_blocks_12(os) + manual_blocks_13(os), manual_blocks_14(os));
    lemma_esc_free_concat(manual_blocks_1(os) + manual_blocks_2(os) + manual_blocks_3(os) + manual_blocks_4(os) + manual_blocks_5(os) + manual_blocks_6(os) + manual_blocks_7(os) + manual_blocks_8(os) + manual_blocks_9(os) + manual_blocks_10(os) + manual_blocks_11(os) + manual_blocks_12(os) + manual_blocks_13(os) + manual_blocks_14(os), manual_blocks_15(os));
    lemma_esc_free_concat(manual_blocks_1(os) + manual_blocks_2(os) + manual_blocks_3(os) + manual_blocks_4(os) + manual_blocks_5(os) + manual_blocks_6(os) + manual_blocks_7(os) + manual_blocks_8(os) + manual_blocks_9(os) + manual_blocks_10(os) + manual_blocks_11(os) + manual_blocks_12(os) + manual_blocks_13(os) + manual_blocks_14(os) + manual_blocks_15(os), manual_blocks_16(os));
}

/// No text of the classification help holds an escape character.
pub proof fn lemma_classification_blocks_esc_free(os: TargetOs)
    ensures
        blocks_esc_free(classification_blocks(os)),
{
    lemma_classification_blocks_1_esc_free(os);
    lemma_classification_blocks_2_esc_free(os);
    lemma_classification_blocks_3_esc_free(os);
    lemma_classification_blocks_4_esc_free(os);
    lemma_classification_blocks_5_esc_free(os);
    lemma_classification_blocks_6_esc_free(os);
    lemma_esc_free_concat(classification_blocks_1(os), classification_blocks_2(os));
    lemma_esc_free_concat(classification_blocks_1(os) + classification_blocks_2(os), classification_blocks_3(os));
    lemma_esc_free_concat(classification_blocks_1(os) + classification_blocks_2(os) + classification_blocks_3(os), classification_blocks_4(os));
    lemma_esc_free_concat(classification_blocks_1(os) + classification_blocks_2(os) + classification_blocks_3(os) + classification_blocks_4(os), classification_blocks_5(os));
    lemma_esc_free_concat(classification_blocks_1(os) + classification_blocks_2(os) + classification_blocks_3(os) + classification_blocks_4(os) + classification_blocks_5(os), classification_blocks_6(os));
}

} // verus!
