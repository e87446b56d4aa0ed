//! The remove engine's planning: classifying the given paths, collecting
//! the entries to unlink, and ordering them depth-first so that every
//! directory comes after all of its descendants.

use vstd::prelude::*;

verus! {

use vstd::string::StringExecFns;
use crate::errors::BcmrError;
use crate::exclude::{excluded_spec, is_excluded, patterns_of, ExcludePattern};
use crate::planner::PathKind;
use crate::strutil::str_chars;

/// One entry scheduled for removal.
#[derive(Debug, Clone, PartialEq, Eq)]
pub struct FileToRemove {
    /// The entry's path.
    pub path: String,
    /// Whether the entry is a directory.
    pub is_dir: bool,
    /// Size in bytes for files, zero for directories.
    pub size: u64,
}

/// One walked entry beneath a directory given to remove.
pub struct RemoveEntry {
    /// The entry's path.
    pub path: String,
    /// Whether the entry is a directory.
    pub is_dir: bool,
    /// The entry's size in bytes when it is a file.
    pub size: u64,
}

/// One path given to the remove command, with what a walk found there.
pub struct RemoveSource {
    /// The given path.
    pub path: String,
    /// What the path names.
    pub kind: PathKind,
    /// Size in bytes when the path names a file.
    pub size: u64,
    /// Whether a directory at the path is empty.
    pub is_empty: bool,
    /// The walked entries beneath a directory, the directory included.
    pub entries: Vec<RemoveEntry>,
}

/// The item view of a planned removal.
pub open spec fn removal_view(s: Seq<FileToRemove>) -> Seq<(Seq<char>, bool, u64)> {
    s.map_values(|f: FileToRemove| (f.path@, f.is_dir, f.size))
}

/// The item one walked entry contributes: nothing when excluded, else its
/// path and kind, with directories counting zero bytes.
pub open spec fn entry_item(e: RemoveEntry, pats: Seq<Seq<char>>) -> Seq<(Seq<char>, bool, u64)> {
    if excluded_spec(e.path@, pats) {
        Seq::empty()
    } else {
        seq![
            (e.path@, e.is_dir, if e.is_dir {
                0u64
            } else {
                e.size
            }),
        ]
    }
}

/// The items a walked entry list contributes, excluded paths passed over.
pub open spec fn entry_items(es: Seq<RemoveEntry>, pats: Seq<Seq<char>>) -> Seq<
    (Seq<char>, bool, u64),
>
    decreases es.len(),
{
    if es.len() == 0 {
        Seq::empty()
    } else {
        entry_items(es.drop_last(), pats) + entry_item(es.last(), pats)
    }
}

proof fn lemma_entry_items_step(es: Seq<RemoveEntry>, i: int, pats: Seq<Seq<char>>)
    requires
        0 < i <= es.len(),
    ensures
        entry_items(es.take(i), pats) == entry_items(es.take(i - 1), pats) + entry_item(
            es[i - 1],
            pats,
        ),
{
    let t = es.take(i);
    assert(t.drop_last() =~= es.take(i - 1));
    assert(t.last() == es[i - 1]);
}

/// The items one given path contributes (error cases contribute nothing;
/// they abort the plan instead).
pub open spec fn source_items(
    s: RemoveSource,
    recursive: bool,
    dir_only: bool,
    pats: Seq<Seq<char>>,
) -> Seq<(Seq<char>, bool, u64)> {
    if excluded_spec(s.path@, pats) {
        Seq::empty()
    } else if s.kind is File {
        seq![(s.path@, false, s.size)]
    } else if s.kind is Dir {
        if dir_only {
            seq![(s.path@, true, 0u64)]
        } else if recursive {
            entry_items(s.entries@, pats)
        } else {
            Seq::empty()
        }
    } else {
        Seq::empty()
    }
}

/// The full removal plan of a snapshot.
pub open spec fn removal_plan_spec(
    sources: Seq<RemoveSource>,
    recursive: bool,
    dir_only: bool,
    pats: Seq<Seq<char>>,
) -> Seq<(Seq<char>, bool, u64)>
    decreases sources.len(),
{
    if sources.len() == 0 {
        Seq::empty()
    } else {
        removal_plan_spec(sources.drop_last(), recursive, dir_only, pats) + source_items(
            sources.last(),
            recursive,
            dir_only,
            pats,
        )
    }
}

/// A given path the remove pre-flight rejects.
pub open spec fn bad_remove_source(
    s: RemoveSource,
    recursive: bool,
    dir_only: bool,
    force: bool,
    pats: Seq<Seq<char>>,
) -> bool {
    !excluded_spec(s.path@, pats) && ((s.kind is Dir && !recursive && !dir_only) || (s.kind is Dir
        && dir_only && !s.is_empty) || (s.kind is Missing && !force))
}

/// The error reported for a rejected path.
pub open spec fn bad_remove_error(e: BcmrError, s: RemoveSource, dir_only: bool) -> bool {
    if s.kind is Missing {
        e is SourceNotFound && e->SourceNotFound_0@ == s.path@
    } else if dir_only && !s.is_empty {
        e is InvalidInput && e->InvalidInput_0@ == "Cannot remove '"@ + s.path@
            + "': Directory not empty"@
    } else {
        e is InvalidInput && e->InvalidInput_0@ == "Cannot remove '"@ + s.path@
            + "': Is a directory (use -r for recursive removal)"@
    }
}

fn push_entry_items(
    out: &mut Vec<FileToRemove>,
    entries: &Vec<RemoveEntry>,
    excludes: &Vec<ExcludePattern>,
)
    ensures
        removal_view(final(out)@) == removal_view(old(out)@) + entry_items(
            entries@,
            patterns_of(excludes@),
        ),
{
    let ghost pats = patterns_of(excludes@);
    let mut i: usize = 0;
    while i < entries.len()
        invariant
            i <= entries@.len(),
            pats == patterns_of(excludes@),
            removal_view(out@) == removal_view(old(out)@) + entry_items(
                entries@.take(i as int),
                pats,
            ),
        decreases entries.len() - i,
    {
        let ghost prev = out@;
        let e = &entries[i];
        if !is_excluded(e.path.as_str(), excludes) {
            let size = if e.is_dir {
                0
            } else {
                e.size
            };
            out.push(FileToRemove { path: e.path.clone(), is_dir: e.is_dir, size });
        }
        i = i + 1;
        proof {
            lemma_entry_items_step(entries@, i as int, pats);
            assert(removal_view(out@) =~= removal_view(prev) + entry_item(
                entries@[i as int - 1],
                pats,
            ));
            assert(removal_view(out@) =~= removal_view(old(out)@) + entry_items(
                entries@.take(i as int),
                pats,
            ));
        }
    }
    proof {
        assert(entries@.take(entries@.len() as int) =~= entries@);
    }
}

/// The pre-flight of the remove command: classifies every given path and
/// collects what will be unlinked.  A directory needs the recursive flag
/// or the empty-directory mode; in the latter a non-empty directory is
/// fatal; a missing path is fatal unless force is set.  Excluded paths
/// contribute nothing.
pub fn check_removes(
    sources: &Vec<RemoveSource>,
    recursive: bool,
    dir_only: bool,
    force: bool,
    excludes: &Vec<ExcludePattern>,
) -> (r: Result<Vec<FileToRemove>, BcmrError>)
    ensures
        ({
            let pats = patterns_of(excludes@);
            &&& (r is Ok <==> forall|i: int|
                0 <= i < sources@.len() ==> !bad_remove_source(
                    #[trigger] sources@[i],
                    recursive,
                    dir_only,
                    force,
                    pats,
                ))
            &&& r is Ok ==> removal_view(r->Ok_0@) == removal_plan_spec(
                sources@,
                recursive,
                dir_only,
                pats,
            )
            &&& r is Err ==> exists|i: int|
                0 <= i < sources@.len() && bad_remove_source(
                    #[trigger] sources@[i],
                    recursive,
                    dir_only,
                    force,
                    pats,
                ) && bad_remove_error(r->Err_0, sources@[i], dir_only)
        }),
{
    let ghost pats = patterns_of(excludes@);
    let mut out: Vec<FileToRemove> = Vec::new();
    let mut i: usize = 0;
    while i < sources.len()
        invariant
            i <= sources@.len(),
            pats == patterns_of(excludes@),
            removal_view(out@) == removal_plan_spec(sources@.take(i as int), recursive, dir_only, pats),
            forall|k: int|
                0 <= k < i ==> !bad_remove_source(
                    #[trigger] sources@[k],
                    recursive,
                    dir_only,
                    force,
                    pats,
                ),
        decreases sources.len() - i,
    {
        let s = &sources[i];
        if !is_excluded(s.path.as_str(), excludes) {
            match s.kind {
                PathKind::File => {
                    out.push(FileToRemove { path: s.path.clone(), is_dir: false, size: s.size });
                }
                PathKind::Dir => {
                    if !recursive && !dir_only {
                        let mut m = "Cannot remove '".to_owned();
                        m.append(s.path.as_str());
                        m.append("': Is a directory (use -r for recursive removal)");
                        return Err(BcmrError::InvalidInput(m));
                    }
                    if dir_only {
                        if !s.is_empty {
                            let mut m = "Cannot remove '".to_owned();
                            m.append(s.path.as_str());
                            m.append("': Directory not empty");
                            return Err(BcmrError::InvalidInput(m));
                        }
                        out.push(FileToRemove { path: s.path.clone(), is_dir: true, size: 0 });
                    } else {
                        push_entry_items(&mut out, &s.entries, excludes);
                    }
                }
                PathKind::Missing => {
                    if !force {
                        return Err(BcmrError::SourceNotFound(s.path.clone()));
                    }
                }
            }
        }
        i = i + 1;
        proof {
            assert(sources@.take(i as int).drop_last() =~= sources@.take(i as int - 1));
            assert(sources@.take(i as int).last() == sources@[i as int - 1]);
            assert(removal_view(out@) =~= removal_plan_spec(
                sources@.take(i as int),
                recursive,
                dir_only,
                pats,
            ));
        }
    }
    proof {
        assert(sources@.take(sources@.len() as int) =~= sources@);
    }
    Ok(out)
}

/// A character that starts a path component: a non-separator at the
/// beginning or right after a separator.
pub open spec fn run_start(s: Seq<char>, i: int) -> bool {
    s[i] != '/' && (i == 0 || s[i - 1] == '/')
}

/// The number of component starts among the first `n` characters.
pub open spec fn count_starts(s: Seq<char>, n: int) -> int
    decreases n,
{
    if n <= 0 {
        0
    } else {
        count_starts(s, n - 1) + if run_start(s, n - 1) {
            1int
        } else {
            0int
        }
    }
}

/// The number of path components: the separated segments, plus the root
/// when the path is absolute.
pub open spec fn component_count_spec(s: Seq<char>) -> int {
    count_starts(s, s.len() as int) + if s.len() > 0 && s[0] == '/' {
        1int
    } else {
        0int
    }
}

proof fn lemma_count_starts_le(s: Seq<char>, n: int)
    requires
        0 <= n <= s.len(),
    ensures
        0 <= count_starts(s, n) <= n,
        n > 0 && s[0] == '/' ==> count_starts(s, n) <= n - 1,
    decreases n,
{
    if n > 0 {
        lemma_count_starts_le(s, n - 1);
    }
}

/// Counts the components of a path string.
pub fn component_count(path: &str) -> (r: usize)
    ensures
        r == component_count_spec(path@),
{
    let v = str_chars(path);
    let n = v.len();
    let mut acc: usize = 0;
    let mut i: usize = 0;
    while i < n
        invariant
            i <= n,
            n == v@.len(),
            v@ == path@,
            acc == count_starts(path@, i as int),
            acc <= i,
        decreases n - i,
    {
        let starts = v[i] != '/' && (i == 0 || v[i - 1] == '/');
        if starts {
            acc = acc + 1;
        }
        i = i + 1;
    }
    if n > 0 && v[0] == '/' {
        proof {
            lemma_count_starts_le(path@, n as int);
        }
        acc = acc + 1;
    }
    acc
}

/// Entries ordered so that deeper paths come first: for every directory,
/// its descendants (which have more components) stand before it.
pub open spec fn depth_ordered(s: Seq<FileToRemove>) -> bool {
    forall|i: int, j: int|
        0 <= i < j < s.len() ==> component_count_spec(s[i].path@) >= component_count_spec(
            s[j].path@,
        )
}

/// Orders the entries for deletion: a permutation of the input sorted by
/// component count, deepest first, so that every directory is emitted
/// after all of its descendants.
pub fn order_for_removal(entries: Vec<FileToRemove>) -> (r: Vec<FileToRemove>)
    ensures
        depth_ordered(r@),
        r@.to_multiset() == entries@.to_multiset(),
{
    broadcast use vstd::seq_lib::group_to_multiset_ensures;
    broadcast use vstd::multiset::group_multiset_axioms;

    let mut rest = entries;
    let mut out: Vec<FileToRemove> = Vec::new();
    while rest.len() > 0
        invariant
            out@.to_multiset().add(rest@.to_multiset()) == entries@.to_multiset(),
            depth_ordered(out@),
            forall|i: int, j: int|
                0 <= i < out@.len() && 0 <= j < rest@.len() ==> component_count_spec(
                    #[trigger] out@[i].path@,
                ) >= component_count_spec(#[trigger] rest@[j].path@),
        decreases rest.len(),
    {
        let mut best: usize = 0;
        let mut best_depth = component_count(rest[0].path.as_str());
        let mut k: usize = 1;
        while k < rest.len()
            invariant
                rest@.len() > 0,
                best < k <= rest@.len(),
                best_depth == component_count_spec(rest@[best as int].path@),
                forall|m: int|
                    0 <= m < k ==> component_count_spec(#[trigger] rest@[m].path@) <= best_depth,
            decreases rest.len() - k,
        {
            let d = component_count(rest[k].path.as_str());
            if d > best_depth {
                best = k;
                best_depth = d;
            }
            k = k + 1;
        }
        let ghost old_out = out@;
        let ghost old_rest = rest@;
        let x = rest.remove(best);
        out.push(x);
        proof {
            let ghost xe = old_rest[best as int];
            assert(old_rest.contains(xe));
            vstd::seq_lib::to_multiset_contains(old_rest, xe);
            vstd::seq_lib::to_multiset_remove(old_rest, best as int);
            vstd::seq_lib::to_multiset_build(old_out, xe);
            assert(old_rest.to_multiset().count(xe) > 0);
            assert(rest@ == old_rest.remove(best as int));
            assert(rest@.to_multiset() == old_rest.to_multiset().remove(xe));
            assert(out@ == old_out.push(xe));
            assert(out@.to_multiset() == old_out.to_multiset().insert(xe));
            assert(out@.to_multiset().add(rest@.to_multiset()) =~= old_out.to_multiset().add(
                old_rest.to_multiset(),
            ));
            assert(out@.to_multiset().add(rest@.to_multiset()) =~= entries@.to_multiset());
            assert forall|i: int, j: int|
                0 <= i < out@.len() && 0 <= j < rest@.len() implies component_count_spec(
                #[trigger] out@[i].path@,
            ) >= component_count_spec(#[trigger] rest@[j].path@) by {
                if j < best {
                    assert(rest@[j] == old_rest[j]);
                } else {
                    assert(rest@[j] == old_rest[j + 1]);
                }
                if i < old_out.len() {
                    assert(out@[i] == old_out[i]);
                } else {
                    assert(out@[i] == old_rest[best as int]);
                }
            }
        }
    }
    out
}

/// The byte deltas announced while one file of `size` bytes is removed
/// under a test mode: one delta of the whole size normally and under a
/// delay, and `size / bps + 1` deltas of at most `bps` bytes under a
/// speed limit.  When `skip_zero` is set an empty file announces nothing.
pub fn removal_deltas(size: u64, mode: &crate::cli::TestMode, skip_zero: bool) -> (r: Vec<u64>)
    requires
        *mode matches crate::cli::TestMode::SpeedLimit(bps) ==> bps > 0 && size / bps
            < usize::MAX as u64,
    ensures
        skip_zero && size == 0 ==> r@ == Seq::<u64>::empty(),
        !(skip_zero && size == 0) ==> (match *mode {
            crate::cli::TestMode::SpeedLimit(bps) => r@ == Seq::new(
                (size / bps + 1) as nat,
                |i: int| vstd::math::min(bps as int, size as int) as u64,
            ),
            _ => r@ == seq![size],
        }),
{
    if skip_zero && size == 0 {
        return Vec::new();
    }
    match mode {
        crate::cli::TestMode::SpeedLimit(bps) => {
            let chunks: u64 = size / *bps + 1;
            let each: u64 = if *bps < size {
                *bps
            } else {
                size
            };
            let mut out: Vec<u64> = Vec::new();
            let mut i: u64 = 0;
            while i < chunks
                invariant
                    i <= chunks,
                    out@ == Seq::new(i as nat, |k: int| each),
                decreases chunks - i,
            {
                out.push(each);
                i = i + 1;
                assert(out@ =~= Seq::new(i as nat, |k: int| each));
            }
            out
        }
        _ => {
            let mut out: Vec<u64> = Vec::new();
            out.push(size);
            assert(out@ =~= seq![size]);
            out
        }
    }
}

/// The total size of the files in a removal plan, saturating.
pub open spec fn plan_file_bytes(s: Seq<FileToRemove>) -> int
    decreases s.len(),
{
    if s.len() == 0 {
        0
    } else {
        plan_file_bytes(s.drop_last()) + if s.last().is_dir {
            0int
        } else {
            s.last().size as int
        }
    }
}

/// The number of file entries in a removal plan.
pub open spec fn plan_file_count(s: Seq<FileToRemove>) -> int
    decreases s.len(),
{
    if s.len() == 0 {
        0
    } else {
        plan_file_count(s.drop_last()) + if s.last().is_dir {
            0int
        } else {
            1int
        }
    }
}

/// The counts shown by the aggregate removal confirmation: files,
/// directories, and the files' total bytes (saturating).
pub fn removal_summary(files: &Vec<FileToRemove>) -> (r: (usize, usize, u64))
    ensures
        r.0 + r.1 == files@.len(),
        r.0 == plan_file_count(files@),
        r.2 == vstd::math::min(plan_file_bytes(files@), u64::MAX as int),
{
    let mut file_count: usize = 0;
    let mut dir_count: usize = 0;
    let mut total: u64 = 0;
    let mut i: usize = 0;
    proof {
        lemma_plan_file_bytes_nonneg(files@.take(0));
    }
    while i < files.len()
        invariant
            i <= files@.len(),
            file_count == plan_file_count(files@.take(i as int)),
            file_count + dir_count == i,
            total == vstd::math::min(plan_file_bytes(files@.take(i as int)), u64::MAX as int),
            plan_file_bytes(files@.take(i as int)) >= 0,
        decreases files.len() - i,
    {
        let f = &files[i];
        if f.is_dir {
            dir_count = dir_count + 1;
        } else {
            file_count = file_count + 1;
            if total > u64::MAX - f.size {
                total = u64::MAX;
            } else {
                total = total + f.size;
            }
        }
        i = i + 1;
        proof {
            assert(files@.take(i as int).drop_last() =~= files@.take(i as int - 1));
            assert(files@.take(i as int).last() == files@[i as int - 1]);
        }
    }
    proof {
        assert(files@.take(files@.len() as int) =~= files@);
    }
    (file_count, dir_count, total)
}

proof fn lemma_plan_file_bytes_nonneg(s: Seq<FileToRemove>)
    ensures
        plan_file_bytes(s) >= 0,
    decreases s.len(),
{
    if s.len() > 0 {
        lemma_plan_file_bytes_nonneg(s.drop_last());
    }
}

/// A counter of processed removal items, driving the item-level progress.
pub struct ProgressState {
    /// Items already removed.
    pub processed_items: usize,
    /// Items the plan holds in total.
    pub total_items: usize,
}

impl ProgressState {
    /// A fresh counter over a plan of `total_items` entries.
    pub fn new(total_items: usize) -> (r: ProgressState)
        ensures
            r.processed_items == 0,
            r.total_items == total_items,
    {
        ProgressState { processed_items: 0, total_items }
    }

    /// Records one more removed item.
    pub fn inc_processed(&mut self)
        requires
            old(self).processed_items < usize::MAX,
        ensures
            final(self).processed_items == old(self).processed_items + 1,
            final(self).total_items == old(self).total_items,
    {
        self.processed_items = self.processed_items + 1;
    }
}

} // verus!
