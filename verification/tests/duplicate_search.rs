use nightkrawler::duplicates::{find_duplicate_groups, group_by_hash, group_by_size, ContentGrouping};
use nightkrawler::keep::duplicate_group_from_files;
use nightkrawler::search::{DuplicateSearch, SearchStep};
use nightkrawler::model::{CandidateFile, DuplicateGroup, KeepPolicy};

fn candidate(path: &str, size: u64) -> CandidateFile {
    CandidateFile { path: path.as_bytes().to_vec(), size }
}

fn paths(files: &[CandidateFile]) -> Vec<String> {
    files.iter().map(|f| String::from_utf8(f.path.clone()).unwrap()).collect()
}

#[test]
fn size_groups_by_increasing_size() {
    let files = vec![
        candidate("/a", 30),
        candidate("/b", 10),
        candidate("/c", 30),
        candidate("/d", 20),
        candidate("/e", 10),
        candidate("/f", 30),
    ];
    let groups = group_by_size(&files);
    assert_eq!(groups.len(), 2);
    assert_eq!(paths(&groups[0]), vec!["/b", "/e"]);
    assert_eq!(paths(&groups[1]), vec!["/a", "/c", "/f"]);
}

#[test]
fn unique_sizes_make_no_group() {
    let files = vec![candidate("/a", 1), candidate("/b", 2), candidate("/c", 3)];
    assert!(group_by_size(&files).is_empty());
    assert!(group_by_size(&Vec::new()).is_empty());
}

#[test]
fn zero_byte_files_group_like_others() {
    let files = vec![candidate("/a", 0), candidate("/b", 0)];
    let groups = group_by_size(&files);
    assert_eq!(groups.len(), 1);
    assert_eq!(paths(&groups[0]), vec!["/a", "/b"]);
}

#[test]
fn hash_groups_leave_out_unreadable_and_unique_files() {
    let files = vec![candidate("/a", 5), candidate("/b", 5), candidate("/c", 5), candidate("/d", 5), candidate("/e", 5)];
    let hashes = vec![Some(7), Some(9), None, Some(7), Some(9)];
    let groups = group_by_hash(&files, &hashes);
    assert_eq!(groups.len(), 2);
    assert_eq!(paths(&groups[0]), vec!["/a", "/d"]);
    assert_eq!(paths(&groups[1]), vec!["/b", "/e"]);
    let groups = group_by_hash(&files, &vec![Some(1), Some(2), None, Some(3), None]);
    assert!(groups.is_empty());
}

fn run_grouping(files: Vec<CandidateFile>, contents: &[u8]) -> Vec<Vec<CandidateFile>> {
    let mut grouping = ContentGrouping::new(files);
    let mut asked = 0;
    while let Some((c, f)) = grouping.next_comparison() {
        asked += 1;
        assert!(asked < 1000);
        grouping.answer(contents[c] == contents[f]);
    }
    grouping.into_groups()
}

#[test]
fn byte_comparison_splits_a_hash_group() {
    let files = vec![candidate("/a", 1), candidate("/b", 1), candidate("/c", 1), candidate("/d", 1)];
    let groups = run_grouping(files, b"xyxx");
    assert_eq!(groups.len(), 2);
    assert_eq!(paths(&groups[0]), vec!["/a", "/c", "/d"]);
    assert_eq!(paths(&groups[1]), vec!["/b"]);
}

#[test]
fn comparisons_are_made_with_group_firsts_in_order() {
    let files = vec![candidate("/a", 1), candidate("/b", 1), candidate("/c", 1)];
    let mut grouping = ContentGrouping::new(files);
    assert_eq!(grouping.next_comparison(), Some((1, 0)));
    grouping.answer(false);
    assert_eq!(grouping.next_comparison(), Some((2, 0)));
    grouping.answer(false);
    assert_eq!(grouping.next_comparison(), Some((2, 1)));
    grouping.answer(true);
    assert_eq!(grouping.next_comparison(), None);
    let groups = grouping.into_groups();
    assert_eq!(paths(&groups[0]), vec!["/a"]);
    assert_eq!(paths(&groups[1]), vec!["/b", "/c"]);
}

#[test]
fn a_single_candidate_needs_no_comparison() {
    let mut grouping = ContentGrouping::new(vec![candidate("/only", 3)]);
    assert_eq!(grouping.next_comparison(), None);
    let groups = grouping.into_groups();
    assert_eq!(groups.len(), 1);
    let empty = ContentGrouping::new(Vec::new());
    assert_eq!(empty.next_comparison(), None);
    assert!(empty.into_groups().is_empty());
}

#[test]
fn duplicate_groups_skip_single_files() {
    let groups = vec![
        vec![candidate("/home/u/Downloads/a.iso", 9), candidate("/home/u/a.iso", 9)],
        vec![candidate("/lonely", 9)],
        vec![candidate("/x/b", 9), candidate("/x/a", 9), candidate("/x/c", 9)],
    ];
    let canonical: Vec<Vec<Vec<u8>>> = groups.iter().map(|g| g.iter().map(|f| f.path.clone()).collect()).collect();
    let found = find_duplicate_groups(&groups, &canonical, KeepPolicy::Default, &Vec::new());
    assert_eq!(found.len(), 2);
    assert_eq!(found[0].keep.path, b"/home/u/a.iso".to_vec());
    assert_eq!(paths(&found[0].remove), vec!["/home/u/Downloads/a.iso"]);
    assert_eq!(found[1].keep.path, b"/x/a".to_vec());
    assert_eq!(paths(&found[1].remove), vec!["/x/b", "/x/c"]);
}

fn keeper(files: Vec<CandidateFile>, policy: KeepPolicy, prefer: &[&str]) -> (String, Vec<String>) {
    let canonical: Vec<Vec<u8>> = files.iter().map(|f| f.path.clone()).collect();
    let prefer: Vec<Vec<u8>> = prefer.iter().map(|p| p.as_bytes().to_vec()).collect();
    let g = duplicate_group_from_files(files, &canonical, policy, &prefer);
    (String::from_utf8(g.keep.path).unwrap(), paths(&g.remove))
}

#[test]
fn default_keeper_avoids_downloads_and_caches() {
    let (k, rest) = keeper(
        vec![candidate("/h/Downloads/f", 1), candidate("/h/.cache/x/f", 1), candidate("/h/docs/deep/f", 1)],
        KeepPolicy::Default,
        &[],
    );
    assert_eq!(k, "/h/docs/deep/f");
    assert_eq!(rest, vec!["/h/.cache/x/f", "/h/Downloads/f"]);
}

#[test]
fn default_keeper_prefers_shallow_then_name_order() {
    let (k, rest) = keeper(vec![candidate("/a/b/c", 1), candidate("/z", 1), candidate("/y", 1)], KeepPolicy::Default, &[]);
    assert_eq!(k, "/y");
    assert_eq!(rest, vec!["/z", "/a/b/c"]);
}

#[test]
fn preferred_trees_win_in_order() {
    let (k, rest) = keeper(
        vec![candidate("/other/f", 1), candidate("/docs/f", 1), candidate("/devx/sub/f", 1)],
        KeepPolicy::Default,
        &["/devx", "/docs"],
    );
    assert_eq!(k, "/devx/sub/f");
    assert_eq!(rest, vec!["/docs/f", "/other/f"]);
}

#[test]
fn highest_version_keeper() {
    let (k, rest) = keeper(
        vec![candidate("/sdk/1.9/lib", 1), candidate("/sdk/1.10/lib", 1), candidate("/sdk/v2.0.1/lib", 1), candidate("/sdk/x/lib", 1)],
        KeepPolicy::HighestVersion,
        &[],
    );
    assert_eq!(k, "/sdk/v2.0.1/lib");
    assert_eq!(rest, vec!["/sdk/1.10/lib", "/sdk/1.9/lib", "/sdk/x/lib"]);
}

#[test]
fn keeper_choice_does_not_depend_on_input_order() {
    let a = vec![candidate("/b/f", 1), candidate("/a/f", 1), candidate("/c/Downloads/f", 1)];
    let b = vec![candidate("/c/Downloads/f", 1), candidate("/a/f", 1), candidate("/b/f", 1)];
    assert_eq!(keeper(a, KeepPolicy::Default, &[]), keeper(b, KeepPolicy::Default, &[]));
}

#[test]
fn keeper_is_the_same_for_every_input_order() {
    let names = ["/h/Downloads/app-1.2.tar", "/h/src/app-1.10.tar", "/h/src/app-1.9.tar", "/h/b/app.tar"];
    for policy in [KeepPolicy::Default, KeepPolicy::HighestVersion] {
        let forward: Vec<CandidateFile> = names.iter().map(|n| candidate(n, 4)).collect();
        let backward: Vec<CandidateFile> = names.iter().rev().map(|n| candidate(n, 4)).collect();
        let rotated: Vec<CandidateFile> = names.iter().cycle().skip(2).take(4).map(|n| candidate(n, 4)).collect();
        let expected = keeper(forward, policy, &["/h/src"]);
        assert_eq!(keeper(backward, policy, &["/h/src"]), expected);
        assert_eq!(keeper(rotated, policy, &["/h/src"]), expected);
    }
}

fn content_of<'a>(table: &'a [(&'a str, &'a str)], path: &[u8]) -> &'a str {
    table.iter().find(|(p, _)| p.as_bytes() == path).map(|(_, c)| *c).unwrap()
}

/// Runs a search over files whose contents are given, hashing a content by
/// its first byte (so different contents can share a hash).
fn search_over(table: &[(&str, &str)], unreadable: &[&str]) -> Vec<DuplicateGroup> {
    let files: Vec<CandidateFile> = table.iter().map(|(p, c)| candidate(p, c.len() as u64)).collect();
    let mut search = DuplicateSearch::new(&files);
    let mut steps = 0;
    loop {
        steps += 1;
        assert!(steps < 1000);
        match search.next_step() {
            SearchStep::Hash(f) => {
                let hash = if unreadable.iter().any(|u| u.as_bytes() == f.path.as_slice()) {
                    None
                } else {
                    Some(content_of(table, &f.path).as_bytes()[0] as u64)
                };
                search.give_hash(hash)
            },
            SearchStep::Compare(a, b) => search.give_answer(content_of(table, &a.path) == content_of(table, &b.path)),
            SearchStep::Finished => break,
        }
    }
    let canonical: Vec<Vec<Vec<u8>>> =
        search.groups().iter().map(|g| g.iter().map(|f| f.path.clone()).collect()).collect();
    search.finish(&canonical, KeepPolicy::Default, &Vec::new())
}

#[test]
fn the_whole_search_groups_identical_files_once() {
    let table = [
        ("/d/a1", "aaaa"),
        ("/d/b1", "abcd"),
        ("/d/a2", "aaaa"),
        ("/d/c1", "xyz"),
        ("/d/b2", "abcd"),
        ("/d/a3", "aaaa"),
        ("/d/lone", "zz"),
        ("/d/c2", "xyz"),
        ("/d/u", "aaaa"),
    ];
    let groups = search_over(&table, &["/d/u"]);
    assert_eq!(groups.len(), 3);
    let mut seen: Vec<Vec<u8>> = Vec::new();
    for g in &groups {
        assert!(!g.remove.is_empty());
        for f in std::iter::once(&g.keep).chain(g.remove.iter()) {
            assert_eq!(f.size, g.keep.size);
            assert_eq!(content_of(&table, &f.path), content_of(&table, &g.keep.path));
            assert!(!seen.contains(&f.path));
            seen.push(f.path.clone());
        }
    }
    assert_eq!(groups[0].keep.path, b"/d/c1".to_vec());
    assert_eq!(paths(&groups[0].remove), vec!["/d/c2"]);
    assert_eq!(groups[1].keep.path, b"/d/a1".to_vec());
    assert_eq!(paths(&groups[1].remove), vec!["/d/a2", "/d/a3"]);
    assert_eq!(groups[2].keep.path, b"/d/b1".to_vec());
    assert_eq!(paths(&groups[2].remove), vec!["/d/b2"]);
}

#[test]
fn a_search_without_shared_sizes_finds_nothing() {
    assert!(search_over(&[("/x", "a"), ("/y", "bb"), ("/z", "ccc")], &[]).is_empty());
    assert!(search_over(&[], &[]).is_empty());
}
