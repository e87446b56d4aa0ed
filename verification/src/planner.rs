//! Pre-flight planning: destination resolution, the overwrite list, the
//! total byte budget, and the per-file collision rule and dry-run classification.
//!
//! The embedding program walks the filesystem and hands the planner plain
//! snapshots: for every source entry its path, its resolved target, its
//! kind and size, and whether the target exists.  Everything the planner
//! decides from a snapshot is verified here; excluded paths contribute to
//! nothing.

use vstd::prelude::*;

verus! {

use vstd::string::StringExecFns;
use crate::display::ActionType;
use crate::errors::BcmrError;
use crate::exclude::{excluded_spec, is_excluded, patterns_of, ExcludePattern};
use crate::resume::{append_decision, default_decision, ResumeDecision};

/// A destination that an operation would overwrite.
pub struct FileToOverwrite {
    /// The destination path.
    pub path: String,
    /// Whether the source entry is a directory.
    pub is_dir: bool,
}

/// What kind of filesystem object a path names.
#[derive(Clone, Copy, Debug, PartialEq, Eq, Structural)]
pub enum PathKind {
    File,
    Dir,
    Missing,
}

/// One walked entry under a source, with its resolved target.
pub struct CopyEntry {
    /// The source-side path of the entry.
    pub path: String,
    /// The resolved destination path of the entry.
    pub target: String,
    /// Whether the entry is a directory.
    pub is_dir: bool,
    /// The entry's size in bytes (zero for directories).
    pub size: u64,
    /// Whether the resolved destination already exists.
    pub target_exists: bool,
}

/// The resolved destination of one source: `dst/name` when the
/// destination is an existing directory, the destination itself otherwise.
pub open spec fn resolved_target_spec(
    dst: Seq<char>,
    dst_is_dir: bool,
    name: Seq<char>,
) -> Seq<char> {
    if dst_is_dir {
        dst + "/"@ + name
    } else {
        dst
    }
}

/// Resolves the destination path for a source whose base name is `name`.
pub fn resolve_target(dst: &str, dst_is_dir: bool, name: &str) -> (r: String)
    ensures
        r@ == resolved_target_spec(dst@, dst_is_dir, name@),
{
    if dst_is_dir {
        let mut s = dst.to_owned();
        s.append("/");
        s.append(name);
        s
    } else {
        dst.to_owned()
    }
}

/// Whether a walked entry lands on the overwrite list: its target exists
/// and neither its source path nor its target is excluded.
pub open spec fn overwrite_candidate(e: CopyEntry, pats: Seq<Seq<char>>) -> bool {
    e.target_exists && !excluded_spec(e.path@, pats) && !excluded_spec(e.target@, pats)
}

/// The overwrite list for a snapshot, as (target, is_dir) pairs in walk
/// order.
pub open spec fn overwrite_list_spec(s: Seq<CopyEntry>, pats: Seq<Seq<char>>) -> Seq<
    (Seq<char>, bool),
>
    decreases s.len(),
{
    if s.len() == 0 {
        Seq::empty()
    } else {
        overwrite_list_spec(s.drop_last(), pats) + (if overwrite_candidate(s.last(), pats) {
            seq![(s.last().target@, s.last().is_dir)]
        } else {
            Seq::empty()
        })
    }
}

/// The view of a built overwrite list.
pub open spec fn overwrites_view(s: Seq<FileToOverwrite>) -> Seq<(Seq<char>, bool)> {
    s.map_values(|f: FileToOverwrite| (f.path@, f.is_dir))
}

/// Builds the overwrite list: every entry whose target exists and that no
/// exclude pattern removes, in walk order.
pub fn check_overwrites(entries: &Vec<CopyEntry>, excludes: &Vec<ExcludePattern>) -> (r: Vec<
    FileToOverwrite,
>)
    ensures
        overwrites_view(r@) == overwrite_list_spec(entries@, patterns_of(excludes@)),
{
    let ghost pats = patterns_of(excludes@);
    let mut out: Vec<FileToOverwrite> = Vec::new();
    let mut i: usize = 0;
    while i < entries.len()
        invariant
            i <= entries@.len(),
            pats == patterns_of(excludes@),
            overwrites_view(out@) == overwrite_list_spec(entries@.take(i as int), pats),
        decreases entries.len() - i,
    {
        let e = &entries[i];
        if e.target_exists && !is_excluded(e.path.as_str(), excludes) && !is_excluded(
            e.target.as_str(),
            excludes,
        ) {
            let item = FileToOverwrite { path: e.target.clone(), is_dir: e.is_dir };
            out.push(item);
        }
        i = i + 1;
        proof {
            assert(entries@.take(i as int).drop_last() =~= entries@.take(i as int - 1));
            assert(entries@.take(i as int).last() == entries@[i as int - 1]);
            assert(overwrites_view(out@) =~= overwrite_list_spec(entries@.take(i as int), pats));
        }
    }
    proof {
        assert(entries@.take(entries@.len() as int) =~= entries@);
    }
    out
}

/// No excluded path reaches the overwrite list: every listed target comes
/// from an entry that the exclude patterns let through, and the listed
/// target itself matches no pattern.
pub proof fn lemma_exclude_prune_overwrites(s: Seq<CopyEntry>, pats: Seq<Seq<char>>)
    ensures
        forall|k: int|
            0 <= k < overwrite_list_spec(s, pats).len() ==> !excluded_spec(
                #[trigger] overwrite_list_spec(s, pats)[k].0,
                pats,
            ),
    decreases s.len(),
{
    if s.len() > 0 {
        lemma_exclude_prune_overwrites(s.drop_last(), pats);
        let prefix = overwrite_list_spec(s.drop_last(), pats);
        let whole = overwrite_list_spec(s, pats);
        assert forall|k: int| 0 <= k < whole.len() implies !excluded_spec(whole[k].0, pats) by {
            if k < prefix.len() {
                assert(whole[k] == prefix[k]);
            } else {
                assert(overwrite_candidate(s.last(), pats));
                assert(whole[k] == (s.last().target@, s.last().is_dir));
            }
        }
    }
}

/// A source handed to the size planner: its path, kind and size, and the
/// files a recursive walk finds beneath it when it is a directory.
pub struct SourceMeta {
    /// The source path.
    pub path: String,
    /// What the path names.
    pub kind: PathKind,
    /// Size in bytes when the path names a file.
    pub size: u64,
    /// Walked entries beneath a directory source.
    pub files: Vec<ChildFile>,
}

/// One walked entry beneath a directory source.
pub struct ChildFile {
    /// The entry's path.
    pub path: String,
    /// Size in bytes when the entry is a file.
    pub size: u64,
    /// Whether the entry is a file.
    pub is_file: bool,
}

/// The bytes one walked entry contributes to the total.
pub open spec fn child_contribution(c: ChildFile, pats: Seq<Seq<char>>) -> int {
    if c.is_file && !excluded_spec(c.path@, pats) {
        c.size as int
    } else {
        0
    }
}

/// The bytes a directory source's children contribute.
pub open spec fn children_sum(files: Seq<ChildFile>, pats: Seq<Seq<char>>) -> int
    decreases files.len(),
{
    if files.len() == 0 {
        0
    } else {
        children_sum(files.drop_last(), pats) + child_contribution(files.last(), pats)
    }
}

/// A source the size planner rejects: a missing path, or a directory
/// without the recursive flag (excluded sources are passed over instead).
pub open spec fn bad_source(s: SourceMeta, recursive: bool, pats: Seq<Seq<char>>) -> bool {
    !excluded_spec(s.path@, pats) && (s.kind is Missing || (s.kind is Dir && !recursive))
}

/// The bytes one source contributes to the total.
pub open spec fn source_contribution(s: SourceMeta, recursive: bool, pats: Seq<Seq<char>>) -> int {
    if excluded_spec(s.path@, pats) {
        0
    } else if s.kind is File {
        s.size as int
    } else if s.kind is Dir && recursive {
        children_sum(s.files@, pats)
    } else {
        0
    }
}

/// The total byte budget of a snapshot.
pub open spec fn total_size_spec(sources: Seq<SourceMeta>, recursive: bool, pats: Seq<Seq<char>>)
    -> int
    decreases sources.len(),
{
    if sources.len() == 0 {
        0
    } else {
        total_size_spec(sources.drop_last(), recursive, pats) + source_contribution(
            sources.last(),
            recursive,
            pats,
        )
    }
}

/// The error reported for a rejected source.
pub open spec fn bad_source_error(e: BcmrError, s: SourceMeta) -> bool {
    if s.kind is Missing {
        e is SourceNotFound && e->SourceNotFound_0@ == s.path@
    } else {
        e is InvalidInput && e->InvalidInput_0@ == "Source '"@ + s.path@
            + "' is a directory. Use -r flag for recursive copy."@
    }
}

/// Children contribute non-negatively.
proof fn lemma_children_sum_nonneg(files: Seq<ChildFile>, pats: Seq<Seq<char>>)
    ensures
        children_sum(files, pats) >= 0,
    decreases files.len(),
{
    if files.len() > 0 {
        lemma_children_sum_nonneg(files.drop_last(), pats);
    }
}

/// Sums one directory source's children, saturating at the u64 maximum.
fn sum_children(files: &Vec<ChildFile>, excludes: &Vec<ExcludePattern>) -> (t: u64)
    ensures
        t == vstd::math::min(children_sum(files@, patterns_of(excludes@)), u64::MAX as int),
{
    let ghost pats = patterns_of(excludes@);
    let mut total: u64 = 0;
    let mut i: usize = 0;
    proof {
        lemma_children_sum_nonneg(files@.take(0), pats);
    }
    while i < files.len()
        invariant
            i <= files@.len(),
            pats == patterns_of(excludes@),
            total == vstd::math::min(children_sum(files@.take(i as int), pats), u64::MAX as int),
            children_sum(files@.take(i as int), pats) >= 0,
        decreases files.len() - i,
    {
        let c = &files[i];
        if c.is_file && !is_excluded(c.path.as_str(), excludes) {
            if total > u64::MAX - c.size {
                total = u64::MAX;
            } else {
                total = total + c.size;
            }
        }
        i = i + 1;
        proof {
            assert(files@.take(i as int).drop_last() =~= files@.take(i as int - 1));
            assert(files@.take(i as int).last() == files@[i as int - 1]);
        }
    }
    proof {
        assert(files@.take(files@.len() as int) =~= files@);
    }
    total
}

/// Computes the total byte budget of the snapshot.  Fails on the first
/// source that is missing (`SourceNotFound`) or is a directory without the
/// recursive flag (`InvalidInput`); excluded sources contribute nothing.
/// The total saturates at the u64 maximum.
pub fn get_total_size(
    sources: &Vec<SourceMeta>,
    recursive: bool,
    excludes: &Vec<ExcludePattern>,
) -> (r: Result<u64, BcmrError>)
    ensures
        ({
            let pats = patterns_of(excludes@);
            &&& (r is Ok <==> forall|i: int|
                0 <= i < sources@.len() ==> !bad_source(#[trigger] sources@[i], recursive, pats))
            &&& r is Ok ==> r->Ok_0 == vstd::math::min(
                total_size_spec(sources@, recursive, pats),
                u64::MAX as int,
            )
            &&& r is Err ==> exists|i: int|
                0 <= i < sources@.len() && bad_source(#[trigger] sources@[i], recursive, pats)
                    && bad_source_error(r->Err_0, sources@[i])
        }),
{
    let ghost pats = patterns_of(excludes@);
    let mut total: u64 = 0;
    let mut i: usize = 0;
    proof {
        lemma_total_size_nonneg(sources@.take(0), recursive, pats);
    }
    while i < sources.len()
        invariant
            i <= sources@.len(),
            pats == patterns_of(excludes@),
            total == vstd::math::min(
                total_size_spec(sources@.take(i as int), recursive, pats),
                u64::MAX as int,
            ),
            total_size_spec(sources@.take(i as int), recursive, pats) >= 0,
            forall|k: int| 0 <= k < i ==> !bad_source(#[trigger] sources@[k], recursive, pats),
        decreases sources.len() - i,
    {
        let s = &sources[i];
        let ghost contribution = source_contribution(sources@[i as int], recursive, pats);
        proof {
            lemma_children_sum_nonneg(s.files@, pats);
        }
        let add: u64 = if is_excluded(s.path.as_str(), excludes) {
            0
        } else {
            match s.kind {
                PathKind::File => s.size,
                PathKind::Dir => {
                    if recursive {
                        sum_children(&s.files, excludes)
                    } else {
                        let mut m = "Source '".to_owned();
                        m.append(s.path.as_str());
                        m.append("' is a directory. Use -r flag for recursive copy.");
                        return Err(BcmrError::InvalidInput(m));
                    }
                }
                PathKind::Missing => {
                    return Err(BcmrError::SourceNotFound(s.path.clone()));
                }
            }
        };
        proof {
            assert(add == vstd::math::min(contribution, u64::MAX as int));
        }
        if total > u64::MAX - add {
            total = u64::MAX;
        } else {
            total = total + add;
        }
        i = i + 1;
        proof {
            assert(sources@.take(i as int).drop_last() =~= sources@.take(i as int - 1));
            assert(sources@.take(i as int).last() == sources@[i as int - 1]);
        }
    }
    proof {
        assert(sources@.take(sources@.len() as int) =~= sources@);
    }
    Ok(total)
}

/// The total budget is non-negative.
proof fn lemma_total_size_nonneg(sources: Seq<SourceMeta>, recursive: bool, pats: Seq<Seq<char>>)
    ensures
        total_size_spec(sources, recursive, pats) >= 0,
    decreases sources.len(),
{
    if sources.len() > 0 {
        lemma_total_size_nonneg(sources.drop_last(), recursive, pats);
        lemma_children_sum_nonneg(sources.last().files@, pats);
    }
}

/// How the engine may proceed at one destination before writing.
#[derive(Clone, Copy, Debug, PartialEq, Eq, Structural)]
pub enum OverwriteAction {
    /// Nothing stands at the destination, or a resume flag reconciles it.
    Proceed,
    /// Force is set: delete the destination, then copy.
    DeleteFirst,
}

/// The collision rule at one destination: an existing target without
/// force or a resume family flag is an error; force without a resume
/// flag deletes first.
pub fn resolve_overwrite(
    dst_exists: bool,
    force: bool,
    resume: bool,
    append: bool,
    strict: bool,
    dst_path: &str,
) -> (r: Result<OverwriteAction, BcmrError>)
    ensures
        ({
            let family = resume || append || strict;
            &&& (r is Err <==> dst_exists && !force && !family)
            &&& r is Err ==> r->Err_0 is TargetExists && r->Err_0->TargetExists_0@ == dst_path@
            &&& r is Ok ==> (r->Ok_0 is DeleteFirst <==> dst_exists && force && !family)
        }),
{
    let family = resume || append || strict;
    if dst_exists && !force && !family {
        Err(BcmrError::TargetExists(dst_path.to_owned()))
    } else if dst_exists && force && !family {
        Ok(OverwriteAction::DeleteFirst)
    } else {
        Ok(OverwriteAction::Proceed)
    }
}

/// How one source of a copy is handled.
pub enum CopyPlan {
    /// The source is excluded: nothing happens.
    Skip,
    /// Copy a file to `target`, deleting it first when `delete_first`.
    FileCopy { target: String, delete_first: bool },
    /// Copy a directory tree under `target`, creating it if needed.
    DirCopy { target: String },
}

/// Decides how one source of a copy is handled, mirroring the engine's
/// order of checks: exclusion first, then the file case with its
/// collision rule, then the directory cases, then the missing source.
pub fn plan_copy_source(
    src_path: &str,
    src_name: &str,
    src_kind: PathKind,
    dst: &str,
    dst_is_dir: bool,
    target_exists: bool,
    recursive: bool,
    force: bool,
    resume: bool,
    append: bool,
    strict: bool,
    excludes: &Vec<ExcludePattern>,
) -> (r: Result<CopyPlan, BcmrError>)
    ensures
        ({
            let pats = patterns_of(excludes@);
            let target = resolved_target_spec(dst@, dst_is_dir, src_name@);
            let excluded = excluded_spec(src_path@, pats);
            let family = resume || append || strict;
            &&& excluded ==> r is Ok && r->Ok_0 is Skip
            &&& !excluded && src_kind is File ==> {
                &&& target_exists && !force && !family ==> r is Err && r->Err_0 is TargetExists
                    && r->Err_0->TargetExists_0@ == target
                &&& !(target_exists && !force && !family) ==> r is Ok
                    && (r->Ok_0 matches CopyPlan::FileCopy { target: t, delete_first } && t@
                    == target && delete_first == (target_exists && force && !family))
            }
            &&& !excluded && src_kind is Dir && recursive ==> r is Ok
                && (r->Ok_0 matches CopyPlan::DirCopy { target: t } && t@ == target)
            &&& !excluded && src_kind is Dir && !recursive ==> r is Err && r->Err_0 is InvalidInput
                && r->Err_0->InvalidInput_0@ == "Source '"@ + src_path@
                + "' is a directory. Use -r flag for recursive copy."@
            &&& !excluded && src_kind is Missing ==> r is Err && r->Err_0 is SourceNotFound
                && r->Err_0->SourceNotFound_0@ == src_path@
        }),
{
    if is_excluded(src_path, excludes) {
        return Ok(CopyPlan::Skip);
    }
    match src_kind {
        PathKind::File => {
            let target = resolve_target(dst, dst_is_dir, src_name);
            match resolve_overwrite(target_exists, force, resume, append, strict, target.as_str()) {
                Ok(OverwriteAction::DeleteFirst) => Ok(
                    CopyPlan::FileCopy { target, delete_first: true },
                ),
                Ok(OverwriteAction::Proceed) => Ok(
                    CopyPlan::FileCopy { target, delete_first: false },
                ),
                Err(e) => Err(e),
            }
        }
        PathKind::Dir => {
            if recursive {
                let target = resolve_target(dst, dst_is_dir, src_name);
                Ok(CopyPlan::DirCopy { target })
            } else {
                let mut m = "Source '".to_owned();
                m.append(src_path);
                m.append("' is a directory. Use -r flag for recursive copy.");
                Err(BcmrError::InvalidInput(m))
            }
        }
        PathKind::Missing => Err(BcmrError::SourceNotFound(src_path.to_owned())),
    }
}

/// The action a dry run predicts for one file, from metadata alone.  In
/// strict mode an equal-sized destination is optimistically reported as a
/// skip, since deciding for sure would need a hash.
pub open spec fn dry_run_action_spec(
    dst_exists: bool,
    src_len: u64,
    dst_len: u64,
    src_mtime: i64,
    dst_mtime: i64,
    resume: bool,
    append: bool,
    strict: bool,
) -> ActionType {
    if !dst_exists {
        ActionType::Add
    } else if strict || append {
        action_of(append_decision(src_len, dst_len))
    } else if resume {
        action_of(default_decision(src_len, dst_len, src_mtime, dst_mtime))
    } else {
        ActionType::Overwrite
    }
}

/// The dry-run label of a resume decision.
pub open spec fn action_of(d: ResumeDecision) -> ActionType {
    match d {
        ResumeDecision::SkipIdenticalTail => ActionType::Skip,
        ResumeDecision::AppendFromOffset(_) => ActionType::Append,
        ResumeDecision::OverwriteFromStart => ActionType::Overwrite,
    }
}

/// Classifies one file for dry-run output.
pub fn dry_run_action(
    dst_exists: bool,
    src_len: u64,
    dst_len: u64,
    src_mtime: i64,
    dst_mtime: i64,
    resume: bool,
    append: bool,
    strict: bool,
) -> (r: ActionType)
    ensures
        r == dry_run_action_spec(
            dst_exists,
            src_len,
            dst_len,
            src_mtime,
            dst_mtime,
            resume,
            append,
            strict,
        ),
{
    if !dst_exists {
        ActionType::Add
    } else if strict || append {
        if dst_len == src_len {
            ActionType::Skip
        } else if dst_len < src_len {
            ActionType::Append
        } else {
            ActionType::Overwrite
        }
    } else if resume {
        if src_mtime != dst_mtime {
            ActionType::Overwrite
        } else if dst_len == src_len {
            ActionType::Skip
        } else if dst_len < src_len {
            ActionType::Append
        } else {
            ActionType::Overwrite
        }
    } else {
        ActionType::Overwrite
    }
}

} // verus!
