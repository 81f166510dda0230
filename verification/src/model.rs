//! The data that flows through a scan: options, candidate files, duplicate
//! groups, quarantine records and the summaries of the action modes.
//! Pathnames are raw UNIX pathname bytes.
use vstd::prelude::*;

verus! {

/// How a keeper is chosen among the members of a duplicate group.
#[derive(Debug, Clone, Copy, PartialEq, Eq, Structural)]
pub enum KeepPolicy {
    Default,
    HighestVersion,
}

/// The classification of a path, from least to most restrictive.
#[derive(Debug, Clone, Copy, PartialEq, Eq, Structural)]
pub enum PathClass {
    Ordinary,
    Generated,
    Protected,
}

/// The rank of a class in the order Ordinary < Generated < Protected.
pub open spec fn class_rank(c: PathClass) -> int {
    match c {
        PathClass::Ordinary => 0,
        PathClass::Generated => 1,
        PathClass::Protected => 2,
    }
}

/// The options of a scan.
#[derive(Debug)]
pub struct Options {
    pub root_path: Vec<u8>,
    pub recursive: bool,
    pub min_size: u64,
    pub force_dotdirs: bool,
    pub allow_protected: bool,
    pub delete: bool,
    pub trash: bool,
    pub excludes: Vec<Vec<u8>>,
    pub protected_paths: Vec<Vec<u8>>,
    pub prefer_paths: Vec<Vec<u8>>,
    pub keep_policy: KeepPolicy,
    pub quarantine_path: Option<Vec<u8>>,
    pub report_path: Option<Vec<u8>>,
    pub interactive: bool,
    pub use_colors: bool,
}

/// The options of a scan, as a value.
pub struct OptionsView {
    pub root_path: Seq<u8>,
    pub recursive: bool,
    pub min_size: u64,
    pub force_dotdirs: bool,
    pub allow_protected: bool,
    pub delete: bool,
    pub trash: bool,
    pub excludes: Seq<Seq<u8>>,
    pub protected_paths: Seq<Seq<u8>>,
    pub prefer_paths: Seq<Seq<u8>>,
    pub keep_policy: KeepPolicy,
    pub quarantine_path: Option<Seq<u8>>,
    pub report_path: Option<Seq<u8>>,
    pub interactive: bool,
    pub use_colors: bool,
}

/// The values of a list of pathnames.
pub open spec fn paths_view(ps: Seq<Vec<u8>>) -> Seq<Seq<u8>> {
    ps.map_values(|p: Vec<u8>| p@)
}

/// The value of an optional pathname.
pub open spec fn opt_path_view(p: Option<Vec<u8>>) -> Option<Seq<u8>> {
    match p {
        Some(v) => Some(v@),
        None => None,
    }
}

impl View for Options {
    type V = OptionsView;

    open spec fn view(&self) -> OptionsView {
        OptionsView {
            root_path: self.root_path@,
            recursive: self.recursive,
            min_size: self.min_size,
            force_dotdirs: self.force_dotdirs,
            allow_protected: self.allow_protected,
            delete: self.delete,
            trash: self.trash,
            excludes: paths_view(self.excludes@),
            protected_paths: paths_view(self.protected_paths@),
            prefer_paths: paths_view(self.prefer_paths@),
            keep_policy: self.keep_policy,
            quarantine_path: opt_path_view(self.quarantine_path),
            report_path: opt_path_view(self.report_path),
            interactive: self.interactive,
            use_colors: self.use_colors,
        }
    }
}

/// A regular file found by the scan, with its size in bytes.
#[derive(Debug, Clone)]
pub struct CandidateFile {
    pub path: Vec<u8>,
    pub size: u64,
}

/// A candidate file, as a value.
pub struct CandidateView {
    pub path: Seq<u8>,
    pub size: u64,
}

impl View for CandidateFile {
    type V = CandidateView;

    open spec fn view(&self) -> CandidateView {
        CandidateView { path: self.path@, size: self.size }
    }
}

/// The values of a list of candidate files.
pub open spec fn files_view(fs: Seq<CandidateFile>) -> Seq<CandidateView> {
    fs.map_values(|f: CandidateFile| f@)
}

impl CandidateFile {
    /// A copy of this file entry.
    pub fn duplicate(&self) -> (r: CandidateFile)
        ensures
            r@ == self@,
    {
        CandidateFile { path: self.path.clone(), size: self.size }
    }
}

/// Copies a list of candidate files.
pub fn duplicate_files(fs: &Vec<CandidateFile>) -> (r: Vec<CandidateFile>)
    ensures
        files_view(r@) == files_view(fs@),
{
    let mut r: Vec<CandidateFile> = Vec::new();
    let mut i: usize = 0;
    while i < fs.len()
        invariant
            i <= fs@.len(),
            r@.len() == i,
            files_view(r@) == files_view(fs@).subrange(0, i as int),
        decreases fs@.len() - i,
    {
        let e = fs[i].duplicate();
        let ghost old_r = r@;
        r.push(e);
        assert(r@ == old_r.push(e));
        i = i + 1;
        assert forall|k: int| 0 <= k < i implies files_view(r@)[k] == files_view(fs@).subrange(0, i as int)[k] by {
            if k < i - 1 {
                assert(files_view(r@)[k] == r@[k]@);
                assert(r@[k] == old_r[k]);
                assert(files_view(old_r)[k] == old_r[k]@);
            }
        }
        assert(files_view(r@) =~= files_view(fs@).subrange(0, i as int));
    }
    assert(files_view(fs@).subrange(0, fs@.len() as int) =~= files_view(fs@));
    r
}

/// A set of files with identical content: one keeper and the removable rest.
#[derive(Debug)]
pub struct DuplicateGroup {
    pub keep: CandidateFile,
    pub remove: Vec<CandidateFile>,
}

/// A duplicate group, as a value.
pub struct GroupView {
    pub keep: CandidateView,
    pub remove: Seq<CandidateView>,
}

impl View for DuplicateGroup {
    type V = GroupView;

    open spec fn view(&self) -> GroupView {
        GroupView { keep: self.keep@, remove: files_view(self.remove@) }
    }
}

/// The values of a list of duplicate groups.
pub open spec fn groups_view(gs: Seq<DuplicateGroup>) -> Seq<GroupView> {
    gs.map_values(|g: DuplicateGroup| g@)
}

/// All members of a group: the keeper first, then the removable files.
pub open spec fn group_members(g: GroupView) -> Seq<CandidateView> {
    seq![g.keep] + g.remove
}

/// Where one removable file was copied by a quarantine.
#[derive(Debug, Clone)]
pub struct QuarantineRecord {
    pub original_path: Vec<u8>,
    pub quarantine_path: Vec<u8>,
    pub size: u64,
}

/// A quarantine record, as a value.
pub struct RecordView {
    pub original_path: Seq<u8>,
    pub quarantine_path: Seq<u8>,
    pub size: u64,
}

impl View for QuarantineRecord {
    type V = RecordView;

    open spec fn view(&self) -> RecordView {
        RecordView {
            original_path: self.original_path@,
            quarantine_path: self.quarantine_path@,
            size: self.size,
        }
    }
}

/// The values of a list of quarantine records.
pub open spec fn records_view(rs: Seq<QuarantineRecord>) -> Seq<RecordView> {
    rs.map_values(|r: QuarantineRecord| r@)
}

/// The outcome of copying removable files into a quarantine.
#[derive(Debug)]
pub struct QuarantineSummary {
    pub copied: usize,
    pub failed: usize,
    pub skipped: usize,
    pub records: Vec<QuarantineRecord>,
}

/// The outcome of moving removable files to the Trash.
#[derive(Debug)]
pub struct TrashSummary {
    pub kept: usize,
    pub trashed: usize,
    pub failed: usize,
    pub skipped: usize,
    pub trashed_space: u64,
}

/// The outcome of deleting removable files.
#[derive(Debug)]
pub struct DeleteSummary {
    pub kept: usize,
    pub deleted: usize,
    pub failed: usize,
    pub skipped: usize,
    pub deleted_space: u64,
}

/// The outcome of restoring a quarantine.
#[derive(Debug)]
pub struct RestoreSummary {
    pub restored: usize,
    pub failed: usize,
    pub skipped: usize,
    pub restored_space: u64,
}

/// What the command line asks for.
#[derive(Debug)]
pub enum Command {
    Scan(Options),
    Restore(Vec<u8>),
    Cleanup(Vec<u8>),
}

} // verus!
