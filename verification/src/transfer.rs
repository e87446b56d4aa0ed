//! The per-file transfer engine, modeled over in-memory content.
//!
//! The engine reads the source in fixed-size buffers, coalesces all-zero
//! buffers into holes, announces every buffer to the byte-delta callback,
//! and reconciles an existing destination through the resume decision
//! table.  The embedding program performs the same steps against real
//! files; this module computes the content the destination receives, the
//! bytes announced, and the bytes actually materialized (not turned into
//! holes).

use vstd::prelude::*;

verus! {

use crate::checksum::{calculate_hash, calculate_partial_hash, content_hash};
use crate::errors::BcmrError;
use crate::resume::{
    append_decision,
    decide_append,
    decide_default,
    decide_strict,
    default_decision,
    strict_decision,
    ResumeDecision,
};

/// When an all-zero buffer becomes a filesystem hole.
#[derive(Clone, Copy, Debug, PartialEq, Eq, Structural)]
pub enum SparseMode {
    /// Every all-zero buffer becomes a hole.
    Always,
    /// Only all-zero buffers of at least 4 KiB become holes.
    Auto,
    /// No holes.
    Never,
}

/// The hole threshold of `SparseMode::Auto`, in bytes.
pub const SPARSE_AUTO_THRESHOLD: usize = 4096;

/// Every byte of the sequence is zero.
pub open spec fn all_zero(data: Seq<u8>) -> bool {
    forall|k: int| 0 <= k < data.len() ==> data[k] == 0
}

/// Whether a buffer with this content becomes a hole under the given mode.
pub open spec fn hole_chunk(data: Seq<u8>, mode: SparseMode) -> bool {
    match mode {
        SparseMode::Always => all_zero(data),
        SparseMode::Auto => data.len() >= SPARSE_AUTO_THRESHOLD && all_zero(data),
        SparseMode::Never => false,
    }
}

/// The bytes a chunked write materializes (does not turn into holes) when
/// copying `data` in buffers of `chunk` bytes.
pub open spec fn materialized_spec(data: Seq<u8>, chunk: int, mode: SparseMode) -> int
    decreases data.len(),
    when chunk >= 1
{
    if data.len() == 0 {
        0
    } else {
        let n = vstd::math::min(chunk, data.len() as int);
        (if hole_chunk(data.take(n), mode) {
            0int
        } else {
            n
        }) + materialized_spec(data.skip(n), chunk, mode)
    }
}

/// The materialized byte count never exceeds the content length.
pub proof fn lemma_materialized_le(data: Seq<u8>, chunk: int, mode: SparseMode)
    requires
        chunk >= 1,
    ensures
        0 <= materialized_spec(data, chunk, mode) <= data.len(),
    decreases data.len(),
{
    if data.len() > 0 {
        let n = vstd::math::min(chunk, data.len() as int);
        lemma_materialized_le(data.skip(n), chunk, mode);
    }
}

/// Without hole detection every byte is materialized.
pub proof fn lemma_materialized_never(data: Seq<u8>, chunk: int)
    requires
        chunk >= 1,
    ensures
        materialized_spec(data, chunk, SparseMode::Never) == data.len(),
    decreases data.len(),
{
    if data.len() > 0 {
        let n = vstd::math::min(chunk, data.len() as int);
        lemma_materialized_never(data.skip(n), chunk);
    }
}

/// Whether the buffer `data[lo..hi]` becomes a hole under `mode`.
pub fn chunk_is_hole(data: &Vec<u8>, lo: usize, hi: usize, mode: SparseMode) -> (r: bool)
    requires
        lo <= hi <= data@.len(),
    ensures
        r == hole_chunk(data@.subrange(lo as int, hi as int), mode),
{
    let ghost piece = data@.subrange(lo as int, hi as int);
    match mode {
        SparseMode::Never => false,
        SparseMode::Auto => {
            if hi - lo < SPARSE_AUTO_THRESHOLD {
                false
            } else {
                buffer_all_zero(data, lo, hi)
            }
        }
        SparseMode::Always => buffer_all_zero(data, lo, hi),
    }
}

fn buffer_all_zero(data: &Vec<u8>, lo: usize, hi: usize) -> (r: bool)
    requires
        lo <= hi <= data@.len(),
    ensures
        r == all_zero(data@.subrange(lo as int, hi as int)),
{
    let mut k = lo;
    while k < hi
        invariant
            lo <= k <= hi <= data@.len(),
            forall|j: int| lo <= j < k ==> data@[j] == 0,
        decreases hi - k,
    {
        if data[k] != 0 {
            assert(data@.subrange(lo as int, hi as int)[k - lo] != 0);
            return false;
        }
        k = k + 1;
    }
    assert forall|j: int| 0 <= j < hi - lo implies data@.subrange(lo as int, hi as int)[j]
        == 0 by {
        assert(data@[lo + j] == 0);
    }
    true
}

/// Byte totals of one file transfer.
#[derive(Clone, Copy, Debug, PartialEq, Eq, Structural)]
pub struct WriteStats {
    /// Bytes announced to the byte-delta callback.
    pub announced: u64,
    /// Bytes written out, holes not counted.
    pub materialized: u64,
}

/// The write loop of the engine: copies `src[start..]` in buffers of
/// `chunk` bytes, detecting holes per `mode`.  Returns the bytes the
/// destination receives from `start` on (holes read back as zeros), with
/// the announced and materialized byte counts.
pub fn write_with_holes(src: &Vec<u8>, start: usize, chunk: usize, mode: SparseMode) -> (r: (
    Vec<u8>,
    WriteStats,
))
    requires
        start <= src@.len(),
        chunk >= 1,
        src@.len() <= u64::MAX,
    ensures
        r.0@ == src@.skip(start as int),
        r.1.announced == src@.len() - start,
        r.1.materialized == materialized_spec(src@.skip(start as int), chunk as int, mode),
        r.1.materialized <= r.1.announced,
{
    let n = src.len();
    let mut out: Vec<u8> = Vec::new();
    let mut announced: u64 = 0;
    let mut materialized: u64 = 0;
    let mut i = start;
    proof {
        lemma_materialized_le(src@.skip(start as int), chunk as int, mode);
    }
    while i < n
        invariant
            start <= i <= n,
            n == src@.len(),
            n <= u64::MAX,
            chunk >= 1,
            out@ == src@.subrange(start as int, i as int),
            announced == i - start,
            materialized <= announced,
            materialized_spec(src@.skip(start as int), chunk as int, mode) == materialized
                + materialized_spec(src@.skip(i as int), chunk as int, mode),
            materialized_spec(src@.skip(i as int), chunk as int, mode) >= 0,
        decreases n - i,
    {
        let hi = if n - i < chunk {
            n
        } else {
            i + chunk
        };
        let len = hi - i;
        let ghost piece = src@.subrange(i as int, hi as int);
        let hole = chunk_is_hole(src, i, hi, mode);
        let mut k = i;
        while k < hi
            invariant
                i <= k <= hi <= src@.len(),
                out@ == src@.subrange(start as int, k as int),
                start <= i,
            decreases hi - k,
        {
            out.push(src[k]);
            k = k + 1;
            assert(out@ =~= src@.subrange(start as int, k as int));
        }
        proof {
            let rest = src@.skip(i as int);
            assert(rest.len() > 0);
            let m = vstd::math::min(chunk as int, rest.len() as int);
            assert(m == hi - i);
            assert(rest.take(m) =~= piece);
            assert(rest.skip(m) =~= src@.skip(hi as int));
            lemma_materialized_le(src@.skip(hi as int), chunk as int, mode);
        }
        announced = announced + len as u64;
        if !hole {
            materialized = materialized + len as u64;
        }
        i = hi;
    }
    proof {
        assert(src@.subrange(start as int, n as int) =~= src@.skip(start as int));
        assert(src@.skip(n as int) =~= Seq::<u8>::empty());
    }
    (out, WriteStats { announced, materialized })
}

/// The content a destination holds after the engine acts on a decision.
pub open spec fn resume_result(src: Seq<u8>, dst: Seq<u8>, d: ResumeDecision) -> Seq<u8> {
    match d {
        ResumeDecision::SkipIdenticalTail => dst,
        ResumeDecision::AppendFromOffset(n) => dst.take(n as int) + src.skip(n as int),
        ResumeDecision::OverwriteFromStart => src,
    }
}

/// The hash comparison strict mode performs: the full hashes when the
/// sizes agree, the prefix hash against the destination hash when the
/// destination is shorter, and no match at all when it is longer.
pub open spec fn strict_hashes_match(src: Seq<u8>, dst: Seq<u8>) -> bool {
    if dst.len() == src.len() {
        content_hash(src) == content_hash(dst)
    } else if dst.len() < src.len() {
        content_hash(src.take(dst.len() as int)) == content_hash(dst)
    } else {
        false
    }
}

/// The decision the engine takes for an existing destination, given the
/// mode flags (strict wins over append, append over default resume).
pub open spec fn engine_decision(
    src: Seq<u8>,
    dst: Seq<u8>,
    src_mtime: i64,
    dst_mtime: i64,
    append: bool,
    strict: bool,
) -> ResumeDecision {
    if strict {
        strict_decision(src.len() as u64, dst.len() as u64, strict_hashes_match(src, dst))
    } else if append {
        append_decision(src.len() as u64, dst.len() as u64)
    } else {
        default_decision(src.len() as u64, dst.len() as u64, src_mtime, dst_mtime)
    }
}

/// One file transfer, summarized.
pub struct CopyOutcome {
    /// The destination's content after the transfer.
    pub content: Vec<u8>,
    /// Bytes announced to the byte-delta callback.
    pub announced: u64,
    /// Bytes written out, holes and skips not counted.
    pub materialized: u64,
    /// The resume decision taken, if an existing destination was reconciled.
    pub decision: Option<ResumeDecision>,
}

/// Copies one file's content, reconciling an existing destination through
/// the resume decision table when a resume family flag is set, and
/// verifying the result against the source hash when asked.  Announces
/// exactly the source's size in byte deltas, whatever the decision.
pub fn copy_file_bytes(
    src: &Vec<u8>,
    dst: &Option<Vec<u8>>,
    src_mtime: i64,
    dst_mtime: i64,
    resume: bool,
    append: bool,
    strict: bool,
    verify: bool,
    sparse: SparseMode,
    chunk: usize,
    dst_name: &str,
) -> (r: Result<CopyOutcome, BcmrError>)
    requires
        chunk >= 1,
        src@.len() <= u64::MAX,
        dst is Some ==> dst->0@.len() <= u64::MAX,
    ensures
        ({
            let resumable = (resume || append || strict) && dst is Some;
            &&& !resumable ==> {
                &&& r is Ok
                &&& r->Ok_0.content@ == src@
                &&& r->Ok_0.announced == src@.len()
                &&& r->Ok_0.materialized == materialized_spec(src@, chunk as int, sparse)
                &&& r->Ok_0.decision is None
            }
            &&& resumable ==> {
                let d = engine_decision(src@, dst->0@, src_mtime, dst_mtime, append, strict);
                let result = resume_result(src@, dst->0@, d);
                &&& (r is Err <==> verify && d != ResumeDecision::SkipIdenticalTail
                    && content_hash(src@) != content_hash(result))
                &&& r is Ok ==> {
                    &&& r->Ok_0.content@ == result
                    &&& r->Ok_0.announced == src@.len()
                    &&& r->Ok_0.decision == Some(d)
                    &&& r->Ok_0.materialized == (match d {
                        ResumeDecision::SkipIdenticalTail => 0int,
                        ResumeDecision::AppendFromOffset(off) => materialized_spec(
                            src@.skip(off as int),
                            chunk as int,
                            sparse,
                        ),
                        ResumeDecision::OverwriteFromStart => materialized_spec(
                            src@,
                            chunk as int,
                            sparse,
                        ),
                    })
                }
                &&& r is Err ==> r->Err_0 is VerificationError && r->Err_0->VerificationError_0@
                    == dst_name@
            }
            &&& r is Ok ==> r->Ok_0.materialized <= src@.len()
        }),
{
    let resumable = (resume || append || strict) && dst.is_some();
    if !resumable {
        let (content, stats) = write_with_holes(src, 0, chunk, sparse);
        proof {
            assert(src@.skip(0) =~= src@);
        }
        return Ok(
            CopyOutcome {
                content,
                announced: stats.announced,
                materialized: stats.materialized,
                decision: None,
            },
        );
    }
    let existing = match dst {
        Some(d) => d,
        None => {
            proof {
                assert(false);
            }
            src
        }
    };
    let src_len = src.len() as u64;
    let dst_len = existing.len() as u64;
    let d: ResumeDecision = if strict {
        let matched: bool = if dst_len == src_len {
            let src_hash = calculate_hash(src);
            let dst_hash = calculate_hash(existing);
            let m = src_hash == dst_hash;
            proof {
                assert(m == strict_hashes_match(src@, existing@));
            }
            m
        } else if dst_len < src_len {
            let src_part = calculate_partial_hash(src, dst_len);
            let dst_hash = calculate_hash(existing);
            let m = src_part == dst_hash;
            proof {
                assert(vstd::math::min(dst_len as int, src@.len() as int) == existing@.len());
                assert(m == strict_hashes_match(src@, existing@));
            }
            m
        } else {
            false
        };
        decide_strict(src_len, dst_len, matched)
    } else if append {
        decide_append(src_len, dst_len)
    } else {
        decide_default(src_len, dst_len, src_mtime, dst_mtime)
    };
    proof {
        assert(d == engine_decision(src@, existing@, src_mtime, dst_mtime, append, strict));
    }
    let outcome: CopyOutcome = match d {
        ResumeDecision::SkipIdenticalTail => {
            // The whole source is already there: announce it and do nothing.
            let content = existing.clone();
            CopyOutcome { content, announced: src_len, materialized: 0, decision: Some(d) }
        }
        ResumeDecision::AppendFromOffset(off) => {
            // Announce the part already present, then write the tail.
            let mut content = existing.clone();
            let (tail, stats) = write_with_holes(src, off as usize, chunk, sparse);
            let mut tail = tail;
            content.append(&mut tail);
            proof {
                assert(off == existing@.len());
                assert(existing@.take(off as int) =~= existing@);
                assert(content@ == resume_result(src@, existing@, d));
            }
            CopyOutcome {
                content,
                announced: off + stats.announced,
                materialized: stats.materialized,
                decision: Some(d),
            }
        }
        ResumeDecision::OverwriteFromStart => {
            let (content, stats) = write_with_holes(src, 0, chunk, sparse);
            proof {
                assert(src@.skip(0) =~= src@);
            }
            CopyOutcome {
                content,
                announced: stats.announced,
                materialized: stats.materialized,
                decision: Some(d),
            }
        }
    };
    if verify {
        let skipped = match d {
            ResumeDecision::SkipIdenticalTail => true,
            _ => false,
        };
        if !skipped {
            let src_hash = calculate_hash(src);
            let out_hash = calculate_hash(&outcome.content);
            if src_hash != out_hash {
                return Err(BcmrError::VerificationError(dst_name.to_owned()));
            }
        }
    }
    Ok(outcome)
}

/// Repeating a finished copy is free: when a previous run left the
/// destination byte-identical with the source's modification time
/// preserved, a resumed copy in default mode decides to skip, writes
/// nothing, and leaves the destination as it is.
pub proof fn lemma_repeat_copy_skips(src: Seq<u8>, mtime: i64)
    requires
        src.len() <= u64::MAX,
    ensures
        engine_decision(src, src, mtime, mtime, false, false)
            == ResumeDecision::SkipIdenticalTail,
        resume_result(src, src, ResumeDecision::SkipIdenticalTail) == src,
{
}

/// Appending the missing tail to a destination that is a true prefix of
/// its source completes the file: the result is byte-identical to the
/// source.  Together with the next lemma this is the strict-mode
/// guarantee: a true prefix is completed, and whenever the hash
/// comparison fails the destination is rewritten in full.
pub proof fn lemma_strict_prefix_completes(src: Seq<u8>, dst: Seq<u8>)
    requires
        dst.len() <= src.len(),
        dst == src.take(dst.len() as int),
        src.len() <= u64::MAX,
    ensures
        resume_result(
            src,
            dst,
            strict_decision(src.len() as u64, dst.len() as u64, strict_hashes_match(src, dst)),
        ) == src,
{
    if dst.len() == src.len() {
        assert(dst =~= src);
    } else {
        assert(strict_hashes_match(src, dst));
        let d = strict_decision(src.len() as u64, dst.len() as u64, true);
        assert(d == ResumeDecision::AppendFromOffset(dst.len() as u64));
        assert(dst.take(dst.len() as int) =~= dst);
        assert(resume_result(src, dst, d) =~= src);
    }
}

/// When the strict hash comparison does not match, the engine overwrites,
/// and an overwrite always leaves the destination equal to the source.
pub proof fn lemma_strict_mismatch_overwrites(src: Seq<u8>, dst: Seq<u8>)
    requires
        !strict_hashes_match(src, dst),
        src.len() <= u64::MAX,
        dst.len() <= u64::MAX,
    ensures
        strict_decision(src.len() as u64, dst.len() as u64, strict_hashes_match(src, dst))
            == ResumeDecision::OverwriteFromStart,
        resume_result(src, dst, ResumeDecision::OverwriteFromStart) == src,
{
}

} // verus!
