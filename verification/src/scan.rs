//! The decisions of the directory walk: which paths are excluded, which
//! directories are skipped as dot-directories, and what is done with each
//! path met.
use vstd::prelude::*;
use crate::pathname::{file_name, path_file_name, path_starts_with, starts_with};
use crate::text::{lossy_text, utf8_lossy};
use crate::model::paths_view;

verus! {

/// Whether a path lies in the quarantine or under an excluded path, all in
/// canonical form (`Path::starts_with`).
pub open spec fn excluded(path: Seq<u8>, quarantine: Option<Seq<u8>>, excludes: Seq<Seq<u8>>) -> bool {
    ||| (quarantine is Some && path_starts_with(path, quarantine->0))
    ||| exists|i: int| 0 <= i < excludes.len() && path_starts_with(path, #[trigger] excludes[i])
}

/// Whether the walk leaves out `canonical_path`: it lies in the quarantine
/// or under an excluded path. Each path is given in canonical form (or as
/// given where it cannot be resolved).
pub fn should_exclude_path(
    canonical_path: &[u8],
    canonical_quarantine: &Option<Vec<u8>>,
    canonical_excludes: &Vec<Vec<u8>>,
) -> (r: bool)
    ensures
        r == excluded(
            canonical_path@,
            match canonical_quarantine {
                Some(q) => Some(q@),
                None => None,
            },
            paths_view(canonical_excludes@),
        ),
{
    let ghost ev = paths_view(canonical_excludes@);
    if let Some(q) = canonical_quarantine {
        if starts_with(canonical_path, q.as_slice()) {
            return true;
        }
    }
    let mut i: usize = 0;
    while i < canonical_excludes.len()
        invariant
            i <= canonical_excludes@.len(),
            ev == paths_view(canonical_excludes@),
            forall|k: int| 0 <= k < i ==> !path_starts_with(canonical_path@, #[trigger] ev[k]),
        decreases canonical_excludes@.len() - i,
    {
        assert(ev[i as int] == canonical_excludes@[i as int]@);
        if starts_with(canonical_path, canonical_excludes[i].as_slice()) {
            return true;
        }
        i = i + 1;
    }
    false
}

/// Whether a path's file name begins with a dot.
pub open spec fn dotdir(path: Seq<u8>) -> bool {
    match file_name(path) {
        Some(n) => utf8_lossy(n).len() > 0 && utf8_lossy(n)[0] == '.',
        None => false,
    }
}

/// Whether the last component of `path` is a name that begins with a dot.
pub fn is_dotdir(path: &[u8]) -> (r: bool)
    ensures
        r == dotdir(path@),
        match file_name(path@) {
            Some(n) => vstd::utf8::valid_utf8(n) ==> r == (vstd::utf8::decode_utf8(n).len() > 0
                && vstd::utf8::decode_utf8(n)[0] == '.'),
            None => true,
        },
{
    match path_file_name(path) {
        Some(n) => {
            let text = lossy_text(n.as_slice());
            let mut it = text.chars();
            match it.next() {
                Some(c) => c == '.',
                None => false,
            }
        },
        None => false,
    }
}

/// What a path is, as its own metadata says (links are not followed).
#[derive(Debug, Clone, Copy, PartialEq, Eq, Structural)]
pub enum PathKind {
    Symlink,
    File,
    Directory,
    Other,
}

/// What the walk does with a path.
#[derive(Debug, Clone, Copy, PartialEq, Eq, Structural)]
pub enum WalkAction {
    /// Leave it.
    Skip,
    /// Keep it as a candidate file.
    Collect,
    /// Read the directory.
    Descend,
}

/// What the walk does with a path it was given (the scan root or a
/// directory it entered), once the path is known not to be excluded:
/// links and special files are left, files of at least the minimum size
/// kept, and directories read unless the scan is recursive and they are
/// dot-directories that the options do not force.
pub open spec fn start_action(
    kind: PathKind,
    size: u64,
    dotdir: bool,
    recursive: bool,
    force_dotdirs: bool,
    min_size: u64,
) -> WalkAction {
    match kind {
        PathKind::File => if size >= min_size {
            WalkAction::Collect
        } else {
            WalkAction::Skip
        },
        PathKind::Directory => if recursive && dotdir && !force_dotdirs {
            WalkAction::Skip
        } else {
            WalkAction::Descend
        },
        _ => WalkAction::Skip,
    }
}

/// What the walk does with a path it was given (see `start_action`).
pub fn path_action(
    kind: PathKind,
    size: u64,
    dotdir: bool,
    recursive: bool,
    force_dotdirs: bool,
    min_size: u64,
) -> (r: WalkAction)
    ensures
        r == start_action(kind, size, dotdir, recursive, force_dotdirs, min_size),
        recursive && dotdir && !force_dotdirs ==> r != WalkAction::Descend,
        !recursive && kind == PathKind::Directory ==> r == WalkAction::Descend,
{
    match kind {
        PathKind::File => if size >= min_size {
            WalkAction::Collect
        } else {
            WalkAction::Skip
        },
        PathKind::Directory => if recursive && dotdir && !force_dotdirs {
            WalkAction::Skip
        } else {
            WalkAction::Descend
        },
        _ => WalkAction::Skip,
    }
}

/// What the walk does with an entry of a directory it reads: excluded
/// entries, links and special files are left, files of at least the
/// minimum size kept, and directories walked only in a recursive scan.
pub open spec fn member_action(kind: PathKind, size: u64, excluded: bool, recursive: bool, min_size: u64) -> WalkAction {
    if excluded {
        WalkAction::Skip
    } else {
        match kind {
            PathKind::File => if size >= min_size {
                WalkAction::Collect
            } else {
                WalkAction::Skip
            },
            PathKind::Directory => if recursive {
                WalkAction::Descend
            } else {
                WalkAction::Skip
            },
            _ => WalkAction::Skip,
        }
    }
}

/// What the walk does with an entry of a directory (see `member_action`);
/// `excluded` is the verdict of `should_exclude_path` on the entry.
pub fn entry_action(kind: PathKind, size: u64, excluded: bool, recursive: bool, min_size: u64) -> (r: WalkAction)
    ensures
        r == member_action(kind, size, excluded, recursive, min_size),
        excluded ==> r == WalkAction::Skip,
{
    if excluded {
        return WalkAction::Skip;
    }
    match kind {
        PathKind::File => if size >= min_size {
            WalkAction::Collect
        } else {
            WalkAction::Skip
        },
        PathKind::Directory => if recursive {
            WalkAction::Descend
        } else {
            WalkAction::Skip
        },
        _ => WalkAction::Skip,
    }
}

} // verus!
