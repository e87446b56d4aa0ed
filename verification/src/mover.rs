//! The move engine's decision rules.
//!
//! A move tries a rename first and degrades to copy-then-delete when the
//! rename fails with the cross-device error.  When exclude patterns are
//! active, a directory move skips the rename entirely and copies with the
//! excludes applied, then unlinks the non-excluded sources.  The embedding
//! program performs the filesystem steps; this module decides them, and
//! models the fallback over content.

use vstd::prelude::*;

verus! {

use vstd::string::StringExecFns;
use crate::errors::BcmrError;
use crate::exclude::{excluded_spec, is_excluded, patterns_of, ExcludePattern};
use crate::planner::{resolve_target, resolved_target_spec, PathKind};
use crate::transfer::{copy_file_bytes, SparseMode};

/// How one source is moved.
pub enum MovePlan {
    /// The source is excluded: nothing happens.
    Skip,
    /// A dry run: report the planned move of a file to `target`.
    FileDryRun { target: String },
    /// Move a file: delete the target first when `delete_first`, then
    /// attempt a rename to `target`.
    FileRename { target: String, delete_first: bool },
    /// A dry run: report the planned directory move to `target`.
    DirDryRun { target: String },
    /// Move a directory by a single rename to `target`.
    DirRename { target: String },
    /// Excludes are active: copy the directory with excludes applied, then
    /// unlink the non-excluded sources in post-order.
    DirCopyWithExcludes { target: String },
}

/// Decides how one source is moved, mirroring the engine's order of
/// checks: exclusion first, then the file and directory cases, and the
/// two failure cases for a directory without the recursive flag and for a
/// missing source.
pub fn plan_move(
    src_path: &str,
    src_name: &str,
    src_kind: PathKind,
    dst: &str,
    dst_is_dir: bool,
    target_exists: bool,
    recursive: bool,
    force: bool,
    dry_run: bool,
    excludes: &Vec<ExcludePattern>,
) -> (r: Result<MovePlan, BcmrError>)
    ensures
        ({
            let pats = patterns_of(excludes@);
            let target = resolved_target_spec(dst@, dst_is_dir, src_name@);
            let excluded = excluded_spec(src_path@, pats);
            &&& excluded ==> r is Ok && r->Ok_0 is Skip
            &&& !excluded && src_kind is File ==> {
                &&& target_exists && !force ==> r is Err && r->Err_0 is TargetExists
                    && r->Err_0->TargetExists_0@ == target
                &&& !(target_exists && !force) && dry_run ==> r is Ok
                    && (r->Ok_0 matches MovePlan::FileDryRun { target: t } && t@ == target)
                &&& !(target_exists && !force) && !dry_run ==> r is Ok
                    && (r->Ok_0 matches MovePlan::FileRename { target: t, delete_first } && t@
                    == target && delete_first == (target_exists && force))
            }
            &&& !excluded && src_kind is Dir && recursive ==> {
                &&& dry_run ==> r is Ok && (r->Ok_0 matches MovePlan::DirDryRun { target: t } && t@
                    == target)
                &&& !dry_run && excludes@.len() > 0 ==> r is Ok
                    && (r->Ok_0 matches MovePlan::DirCopyWithExcludes { target: t } && t@ == target)
                &&& !dry_run && excludes@.len() == 0 ==> r is Ok
                    && (r->Ok_0 matches MovePlan::DirRename { target: t } && t@ == target)
            }
            &&& !excluded && src_kind is Dir && !recursive ==> r is Err && r->Err_0 is InvalidInput
                && r->Err_0->InvalidInput_0@ == "Source '"@ + src_path@
                + "' is a directory. Use -r flag for recursive move."@
            &&& !excluded && src_kind is Missing ==> r is Err && r->Err_0 is SourceNotFound
                && r->Err_0->SourceNotFound_0@ == src_path@
        }),
{
    if is_excluded(src_path, excludes) {
        return Ok(MovePlan::Skip);
    }
    match src_kind {
        PathKind::File => {
            let target = resolve_target(dst, dst_is_dir, src_name);
            if target_exists && !force {
                Err(BcmrError::TargetExists(target))
            } else if dry_run {
                Ok(MovePlan::FileDryRun { target })
            } else {
                Ok(MovePlan::FileRename { target, delete_first: target_exists && force })
            }
        }
        PathKind::Dir => {
            if recursive {
                let target = resolve_target(dst, dst_is_dir, src_name);
                if dry_run {
                    Ok(MovePlan::DirDryRun { target })
                } else if excludes.len() > 0 {
                    Ok(MovePlan::DirCopyWithExcludes { target })
                } else {
                    Ok(MovePlan::DirRename { target })
                }
            } else {
                let mut m = "Source '".to_owned();
                m.append(src_path);
                m.append("' is a directory. Use -r flag for recursive move.");
                Err(BcmrError::InvalidInput(m))
            }
        }
        PathKind::Missing => Err(BcmrError::SourceNotFound(src_path.to_owned())),
    }
}

/// What follows a failed rename.
#[derive(Clone, Copy, Debug, PartialEq, Eq, Structural)]
pub enum RenameFallback {
    /// The rename crossed a device boundary: copy, then delete the source.
    CopyThenDelete,
}

/// Decides what a failed rename leads to: only the cross-device error
/// falls back to copy-then-delete; any other failure is fatal.
pub fn on_rename_error(is_cross_device: bool, msg: &str) -> (r: Result<RenameFallback, BcmrError>)
    ensures
        is_cross_device ==> r is Ok && r->Ok_0 is CopyThenDelete,
        !is_cross_device ==> r is Err && r->Err_0 is Io && r->Err_0->Io_0@ == msg@,
{
    if is_cross_device {
        Ok(RenameFallback::CopyThenDelete)
    } else {
        Err(BcmrError::Io(msg.to_owned()))
    }
}

/// The cross-device fallback for one file, over content: the full source
/// is copied (no resume flags apply to a move) and only then may the
/// source be unlinked.  The destination receives content byte-identical
/// to the source, and the whole size is announced as progress.
pub fn move_fallback_bytes(src: &Vec<u8>, sparse: SparseMode, chunk: usize) -> (r: (Vec<u8>, u64))
    requires
        chunk >= 1,
        src@.len() <= u64::MAX,
    ensures
        r.0@ == src@,
        r.1 == src@.len(),
{
    let out = copy_file_bytes(src, &None, 0, 0, false, false, false, false, sparse, chunk, "");
    match out {
        Ok(o) => (o.content, o.announced),
        Err(_) => {
            proof {
                assert(false);
            }
            (Vec::new(), 0)
        }
    }
}

} // verus!
