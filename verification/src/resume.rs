//! The per-file resume decision table of the transfer engine.
//!
//! When a destination already exists and one of the resume family of flags
//! is set, the engine decides between skipping the file, appending from the
//! destination's length, and overwriting from the start.  The decision is a
//! pure function of the two sizes, the two modification times, and (in
//! strict mode) the outcome of the hash comparisons.

use vstd::prelude::*;

verus! {

/// What the engine does with an existing destination.
#[derive(Clone, Copy, Debug, PartialEq, Eq, Structural)]
pub enum ResumeDecision {
    /// The destination already holds the whole source: report and do nothing.
    SkipIdenticalTail,
    /// Append source bytes starting at this offset (the destination's length).
    AppendFromOffset(u64),
    /// Rewrite the destination from the beginning.
    OverwriteFromStart,
}

/// The decision in append mode: sizes alone decide.
pub open spec fn append_decision(src_len: u64, dst_len: u64) -> ResumeDecision {
    if dst_len == src_len {
        ResumeDecision::SkipIdenticalTail
    } else if dst_len < src_len {
        ResumeDecision::AppendFromOffset(dst_len)
    } else {
        ResumeDecision::OverwriteFromStart
    }
}

/// The decision in default mode: equal modification times allow the
/// size-based rules, any difference forces an overwrite.
pub open spec fn default_decision(
    src_len: u64,
    dst_len: u64,
    src_mtime: i64,
    dst_mtime: i64,
) -> ResumeDecision {
    if src_mtime != dst_mtime {
        ResumeDecision::OverwriteFromStart
    } else {
        append_decision(src_len, dst_len)
    }
}

/// The decision in strict mode, given the outcome of the hash comparison
/// that applies: `hashes_match` is the full-hash comparison when the sizes
/// are equal, and the prefix-hash comparison when the destination is
/// shorter; it is irrelevant when the destination is longer.
pub open spec fn strict_decision(src_len: u64, dst_len: u64, hashes_match: bool) -> ResumeDecision {
    if dst_len == src_len {
        if hashes_match {
            ResumeDecision::SkipIdenticalTail
        } else {
            ResumeDecision::OverwriteFromStart
        }
    } else if dst_len < src_len {
        if hashes_match {
            ResumeDecision::AppendFromOffset(dst_len)
        } else {
            ResumeDecision::OverwriteFromStart
        }
    } else {
        ResumeDecision::OverwriteFromStart
    }
}

/// Decides what to do with an existing destination in append mode.
pub fn decide_append(src_len: u64, dst_len: u64) -> (d: ResumeDecision)
    ensures
        d == append_decision(src_len, dst_len),
{
    if dst_len == src_len {
        ResumeDecision::SkipIdenticalTail
    } else if dst_len < src_len {
        ResumeDecision::AppendFromOffset(dst_len)
    } else {
        ResumeDecision::OverwriteFromStart
    }
}

/// Decides what to do with an existing destination in default mode.
pub fn decide_default(src_len: u64, dst_len: u64, src_mtime: i64, dst_mtime: i64) -> (d:
    ResumeDecision)
    ensures
        d == default_decision(src_len, dst_len, src_mtime, dst_mtime),
{
    if src_mtime != dst_mtime {
        ResumeDecision::OverwriteFromStart
    } else {
        decide_append(src_len, dst_len)
    }
}

/// Decides what to do with an existing destination in strict mode, given
/// the applicable hash comparison outcome.
pub fn decide_strict(src_len: u64, dst_len: u64, hashes_match: bool) -> (d: ResumeDecision)
    ensures
        d == strict_decision(src_len, dst_len, hashes_match),
{
    if dst_len == src_len {
        if hashes_match {
            ResumeDecision::SkipIdenticalTail
        } else {
            ResumeDecision::OverwriteFromStart
        }
    } else if dst_len < src_len {
        if hashes_match {
            ResumeDecision::AppendFromOffset(dst_len)
        } else {
            ResumeDecision::OverwriteFromStart
        }
    } else {
        ResumeDecision::OverwriteFromStart
    }
}

/// An identical, already-finished destination is skipped in default mode:
/// when the modification times agree and the sizes agree, the decision is
/// to skip, so a repeated copy performs no write.
pub proof fn lemma_resume_idempotent(src_len: u64, dst_len: u64, src_mtime: i64, dst_mtime: i64)
    requires
        src_len == dst_len,
        src_mtime == dst_mtime,
    ensures
        default_decision(src_len, dst_len, src_mtime, dst_mtime)
            == ResumeDecision::SkipIdenticalTail,
{
}

/// A partial destination left by an interrupted copy that preserved the
/// source's modification time is continued, not restarted: in default mode
/// with equal times and a shorter destination, the decision is to append
/// from the destination's length.
pub proof fn lemma_resume_continues(src_len: u64, dst_len: u64, src_mtime: i64, dst_mtime: i64)
    requires
        dst_len < src_len,
        src_mtime == dst_mtime,
    ensures
        default_decision(src_len, dst_len, src_mtime, dst_mtime)
            == ResumeDecision::AppendFromOffset(dst_len),
{
}

} // verus!
