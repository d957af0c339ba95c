//! Choosing, among the entries that a walk of the tree produced, the directories to remove.

use vstd::prelude::*;

use crate::pattern::{any_match, PatternSet};
use vstd::seq_lib::lemma_seq_contains_after_push;

use crate::text::view_strings;

verus! {

/// An entry met while walking the tree below the root.
pub struct CandidateEntry {
    /// The entry's full path.
    pub path: String,
    /// The last component of the path; empty where it has none or it is not UTF-8.
    pub name: String,
    /// The number of steps below the root; the root itself is at depth 0.
    pub depth: usize,
    /// Whether the entry is a directory.
    pub is_dir: bool,
}

/// Whether a depth lies within the bound; a bound of 0 is no bound.
pub open spec fn within_depth(depth: nat, max_depth: nat) -> bool {
    max_depth == 0 || depth <= max_depth
}

/// Whether a basename is matched: by some include pattern and by no exclude pattern.
pub open spec fn name_selected(name: Seq<char>, inc: Seq<Seq<char>>, exc: Seq<Seq<char>>) -> bool {
    any_match(inc, name) && !any_match(exc, name)
}

/// Whether an entry is a target: a directory within the depth bound whose basename is
/// selected.
pub open spec fn is_target(
    e: CandidateEntry,
    inc: Seq<Seq<char>>,
    exc: Seq<Seq<char>>,
    max_depth: nat,
) -> bool {
    &&& e.is_dir
    &&& within_depth(e.depth as nat, max_depth)
    &&& name_selected(e.name@, inc, exc)
}

/// The paths of the target entries, in the order of the entries.
pub open spec fn target_paths(
    es: Seq<CandidateEntry>,
    inc: Seq<Seq<char>>,
    exc: Seq<Seq<char>>,
    max_depth: nat,
) -> Seq<Seq<char>>
    decreases es.len(),
{
    if es.len() == 0 {
        seq![]
    } else {
        let earlier = target_paths(es.drop_last(), inc, exc, max_depth);
        if is_target(es.last(), inc, exc, max_depth) {
            earlier.push(es.last().path@)
        } else {
            earlier
        }
    }
}

/// How deep a walk must go for a bound: `None` for no limit.
pub fn walk_depth_limit(max_depth: usize) -> (r: Option<usize>)
    ensures
        max_depth == 0 ==> r is None,
        max_depth > 0 ==> r == Some(max_depth),
{
    if max_depth > 0 {
        Some(max_depth)
    } else {
        None
    }
}

/// Whether an entry's basename matches some include pattern and no exclude pattern.
pub fn entry_matches(entry: &CandidateEntry, includes: &PatternSet, excludes: &PatternSet) -> (r: bool)
    ensures
        r == name_selected(entry.name@, includes@, excludes@),
{
    let name = entry.name.as_str();
    includes.matches_any(name) && !excludes.matches_any(name)
}

/// The paths of the entries to remove: directories within the depth bound (0 for none)
/// whose basename matches an include pattern and no exclude pattern, in walk order.
pub fn select_targets(
    entries: &Vec<CandidateEntry>,
    includes: &PatternSet,
    excludes: &PatternSet,
    max_depth: usize,
) -> (r: Vec<String>)
    ensures
        view_strings(r@) == target_paths(entries@, includes@, excludes@, max_depth as nat),
{
    let mut r: Vec<String> = Vec::new();
    let mut i: usize = 0;
    while i < entries.len()
        invariant
            i <= entries@.len(),
            view_strings(r@) == target_paths(
                entries@.take(i as int),
                includes@,
                excludes@,
                max_depth as nat,
            ),
        decreases entries@.len() - i,
    {
        let e = &entries[i];
        let ghost prefix = entries@.take(i as int + 1);
        assert(prefix.drop_last() =~= entries@.take(i as int));
        assert(prefix.last() == entries@[i as int]);
        if e.is_dir && (max_depth == 0 || e.depth <= max_depth) && entry_matches(e, includes, excludes) {
            let ghost before = r@;
            r.push(e.path.clone());
            assert(view_strings(r@) =~= view_strings(before).push(e.path@));
        }
        i = i + 1;
    }
    assert(entries@.take(entries@.len() as int) =~= entries@);
    r
}

/// A path is among the targets exactly when some entry with that path is a target.
pub proof fn lemma_target_paths_exact(
    es: Seq<CandidateEntry>,
    inc: Seq<Seq<char>>,
    exc: Seq<Seq<char>>,
    max_depth: nat,
    path: Seq<char>,
)
    ensures
        target_paths(es, inc, exc, max_depth).contains(path) <==> exists|i: int|
            0 <= i < es.len() && #[trigger] is_target(es[i], inc, exc, max_depth) && es[i].path@
                == path,
    decreases es.len(),
{
    if es.len() > 0 {
        let init = es.drop_last();
        let earlier = target_paths(init, inc, exc, max_depth);
        lemma_target_paths_exact(init, inc, exc, max_depth, path);
        lemma_seq_contains_after_push(earlier, es.last().path@, path);
        if earlier.contains(path) {
            let i = choose|i: int|
                0 <= i < init.len() && #[trigger] is_target(init[i], inc, exc, max_depth)
                    && init[i].path@ == path;
            assert(es[i] == init[i]);
        }
        if is_target(es.last(), inc, exc, max_depth) && es.last().path@ == path {
            assert(is_target(es[es.len() - 1], inc, exc, max_depth));
        }
        if exists|i: int|
            0 <= i < es.len() && #[trigger] is_target(es[i], inc, exc, max_depth) && es[i].path@
                == path {
            let i = choose|i: int|
                0 <= i < es.len() && #[trigger] is_target(es[i], inc, exc, max_depth) && es[i].path@
                    == path;
            if i < es.len() - 1 {
                assert(init[i] == es[i]);
                assert(is_target(init[i], inc, exc, max_depth));
            }
        }
    }
}

/// The set of target paths does not depend on the order in which the walk met the entries:
/// two walks that met the same entries select the same paths.
pub proof fn lemma_targets_independent_of_order(
    es1: Seq<CandidateEntry>,
    es2: Seq<CandidateEntry>,
    inc: Seq<Seq<char>>,
    exc: Seq<Seq<char>>,
    max_depth: nat,
)
    requires
        es1.to_set() == es2.to_set(),
    ensures
        target_paths(es1, inc, exc, max_depth).to_set() == target_paths(
            es2,
            inc,
            exc,
            max_depth,
        ).to_set(),
{
    assert forall|path: Seq<char>|
        target_paths(es1, inc, exc, max_depth).contains(path) implies target_paths(
            es2,
            inc,
            exc,
            max_depth,
        ).contains(path) by {
        lemma_target_paths_exact(es1, inc, exc, max_depth, path);
        lemma_target_paths_exact(es2, inc, exc, max_depth, path);
        let i = choose|i: int|
            0 <= i < es1.len() && #[trigger] is_target(es1[i], inc, exc, max_depth)
                && es1[i].path@ == path;
        assert(es1.to_set().contains(es1[i]));
        assert(es2.contains(es1[i]));
        let j = choose|j: int| 0 <= j < es2.len() && es2[j] == es1[i];
        assert(is_target(es2[j], inc, exc, max_depth));
    }
    assert forall|path: Seq<char>|
        target_paths(es2, inc, exc, max_depth).contains(path) implies target_paths(
            es1,
            inc,
            exc,
            max_depth,
        ).contains(path) by {
        lemma_target_paths_exact(es1, inc, exc, max_depth, path);
        lemma_target_paths_exact(es2, inc, exc, max_depth, path);
        let i = choose|i: int|
            0 <= i < es2.len() && #[trigger] is_target(es2[i], inc, exc, max_depth)
                && es2[i].path@ == path;
        assert(es2.to_set().contains(es2[i]));
        assert(es1.contains(es2[i]));
        let j = choose|j: int| 0 <= j < es1.len() && es1[j] == es2[i];
        assert(is_target(es1[j], inc, exc, max_depth));
    }
    assert(target_paths(es1, inc, exc, max_depth).to_set() =~= target_paths(
        es2,
        inc,
        exc,
        max_depth,
    ).to_set());
}

/// With a bound `d > 0`, every target path belongs to an entry no deeper than `d`.
pub proof fn lemma_targets_within_bound(
    es: Seq<CandidateEntry>,
    inc: Seq<Seq<char>>,
    exc: Seq<Seq<char>>,
    d: nat,
    path: Seq<char>,
)
    requires
        d > 0,
        target_paths(es, inc, exc, d).contains(path),
    ensures
        exists|i: int| 0 <= i < es.len() && es[i].path@ == path && es[i].depth <= d,
{
    lemma_target_paths_exact(es, inc, exc, d, path);
    let i = choose|i: int|
        0 <= i < es.len() && #[trigger] is_target(es[i], inc, exc, d) && es[i].path@ == path;
    assert(es[i].depth <= d);
}

} // verus!
