//! The safety checks before a quarantine directory is removed.
use vstd::prelude::*;
use crate::pathname::{components, same_path};

verus! {

/// What a cleanup did.
#[derive(Debug, Clone, Copy, PartialEq, Eq, Structural)]
pub enum CleanupOutcome {
    /// The quarantine was removed.
    Cleaned,
    /// There was no quarantine, or only an empty directory.
    NothingToClean,
}

/// Why a directory is not removed.
#[derive(Debug, Clone, Copy, PartialEq, Eq, Structural)]
pub enum CleanupRefusal {
    /// It is the filesystem root.
    FilesystemRoot,
    /// It is the home directory.
    HomeDirectory,
    /// It is the current working directory.
    WorkingDirectory,
    /// It holds no quarantine manifest with the right magic.
    NotAQuarantine,
}

impl CleanupRefusal {
    /// The message that explains the refusal.
    pub fn message(&self) -> (r: &'static str)
        ensures
            r@ == refusal_message(*self),
    {
        match self {
            CleanupRefusal::FilesystemRoot => "refusing to clean the filesystem root",
            CleanupRefusal::HomeDirectory => "refusing to clean the home directory",
            CleanupRefusal::WorkingDirectory => "refusing to clean the current working directory",
            CleanupRefusal::NotAQuarantine => "directory is not a recognized Nightkrawler quarantine",
        }
    }
}

/// The message of a refusal.
pub open spec fn refusal_message(r: CleanupRefusal) -> Seq<char> {
    match r {
        CleanupRefusal::FilesystemRoot => "refusing to clean the filesystem root"@,
        CleanupRefusal::HomeDirectory => "refusing to clean the home directory"@,
        CleanupRefusal::WorkingDirectory => "refusing to clean the current working directory"@,
        CleanupRefusal::NotAQuarantine => "directory is not a recognized Nightkrawler quarantine"@,
    }
}

/// Which protected directory, if any, a canonical quarantine path is:
/// checked in the order root, home, working directory.
pub open spec fn location_refusal(
    canonical: Seq<u8>,
    canonical_home: Option<Seq<u8>>,
    canonical_cwd: Option<Seq<u8>>,
) -> Option<CleanupRefusal> {
    if components(canonical) == components(seq![47u8]) {
        Some(CleanupRefusal::FilesystemRoot)
    } else if canonical_home is Some && components(canonical) == components(canonical_home->0) {
        Some(CleanupRefusal::HomeDirectory)
    } else if canonical_cwd is Some && components(canonical) == components(canonical_cwd->0) {
        Some(CleanupRefusal::WorkingDirectory)
    } else {
        None
    }
}

/// Refuses to clean the filesystem root, the home directory or the current
/// working directory. All paths are canonical; `canonical_home` and
/// `canonical_cwd` are `None` where they are unknown.
pub fn cleanup_location_refusal(
    canonical: &[u8],
    canonical_home: &Option<Vec<u8>>,
    canonical_cwd: &Option<Vec<u8>>,
) -> (r: Option<CleanupRefusal>)
    ensures
        r == location_refusal(
            canonical@,
            match canonical_home {
                Some(h) => Some(h@),
                None => None,
            },
            match canonical_cwd {
                Some(c) => Some(c@),
                None => None,
            },
        ),
{
    let mut root: Vec<u8> = Vec::new();
    root.push(47u8);
    assert(root@ =~= seq![47u8]);
    if same_path(canonical, root.as_slice()) {
        return Some(CleanupRefusal::FilesystemRoot);
    }
    if let Some(home) = canonical_home {
        if same_path(canonical, home.as_slice()) {
            return Some(CleanupRefusal::HomeDirectory);
        }
    }
    if let Some(cwd) = canonical_cwd {
        if same_path(canonical, cwd.as_slice()) {
            return Some(CleanupRefusal::WorkingDirectory);
        }
    }
    None
}

/// What the cleanup of a quarantine directory does next.
#[derive(Debug, Clone, Copy, PartialEq, Eq, Structural)]
pub enum CleanupStep {
    /// There is no such directory: nothing is cleaned.
    NothingToClean,
    /// The directory is not removed, for this reason.
    Refuse(CleanupRefusal),
    /// The directory is empty: remove it, and report nothing to clean.
    RemoveEmpty,
    /// Read the magic of the quarantine manifest.
    ReadManifest,
    /// The directory is a quarantine: remove it with all it holds.
    RemoveAll,
}

/// The next step of a cleanup. A protected location is refused before
/// anything else is looked at; a missing directory leaves nothing to do, an
/// empty one is removed, and another is removed only once its manifest
/// shows the quarantine magic. `magic_ok` is `None` until the manifest was
/// read.
pub open spec fn cleanup_decision(
    exists: bool,
    empty: bool,
    refusal: Option<CleanupRefusal>,
    magic_ok: Option<bool>,
) -> CleanupStep {
    if refusal is Some {
        CleanupStep::Refuse(refusal->0)
    } else if !exists {
        CleanupStep::NothingToClean
    } else if empty {
        CleanupStep::RemoveEmpty
    } else {
        match magic_ok {
            None => CleanupStep::ReadManifest,
            Some(false) => CleanupStep::Refuse(CleanupRefusal::NotAQuarantine),
            Some(true) => CleanupStep::RemoveAll,
        }
    }
}

/// The next step of a cleanup (see `cleanup_decision`): `refusal` is what
/// `cleanup_location_refusal` says of the directory's canonical path.
pub fn cleanup_step(exists: bool, empty: bool, refusal: Option<CleanupRefusal>, magic_ok: Option<bool>) -> (r: CleanupStep)
    ensures
        r == cleanup_decision(exists, empty, refusal, magic_ok),
        refusal is Some ==> r is Refuse,
        r is RemoveEmpty ==> refusal is None && exists && empty,
        r is RemoveAll ==> refusal is None && exists && !empty && magic_ok == Some(true),
{
    if let Some(why) = refusal {
        CleanupStep::Refuse(why)
    } else if !exists {
        CleanupStep::NothingToClean
    } else if empty {
        CleanupStep::RemoveEmpty
    } else {
        match magic_ok {
            None => CleanupStep::ReadManifest,
            Some(false) => CleanupStep::Refuse(CleanupRefusal::NotAQuarantine),
            Some(true) => CleanupStep::RemoveAll,
        }
    }
}

} // verus!
