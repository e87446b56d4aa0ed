use bcmr::checksum::{calculate_hash, calculate_partial_hash};
use bcmr::errors::BcmrError;
use bcmr::mover::{move_fallback_bytes, on_rename_error, plan_move, MovePlan, RenameFallback};
use bcmr::planner::PathKind;
use bcmr::resume::{decide_append, decide_default, decide_strict, ResumeDecision};
use bcmr::transfer::{copy_file_bytes, write_with_holes, SparseMode};

const MIB: usize = 1024 * 1024;

fn no_excludes() -> Vec<bcmr::exclude::ExcludePattern> {
    Vec::new()
}

#[test]
fn sha256_of_empty_input() {
    let data: Vec<u8> = Vec::new();
    assert_eq!(
        calculate_hash(&data),
        "e3b0c44298fc1c149afbf4c8996fb92427ae41e4649b934ca495991b7852b855"
    );
}

#[test]
fn sha256_of_abc() {
    let data = b"abc".to_vec();
    assert_eq!(
        calculate_hash(&data),
        "ba7816bf8f01cfea414140de5dae2223b00361a396177a9cb410ff61f20015ad"
    );
}

#[test]
fn partial_hash_takes_a_true_prefix() {
    let data = b"abcdef".to_vec();
    let prefix = b"abc".to_vec();
    assert_eq!(calculate_partial_hash(&data, 3), calculate_hash(&prefix));
    // A limit past the end hashes the whole content.
    assert_eq!(calculate_partial_hash(&data, 100), calculate_hash(&data));
}

#[test]
fn byte_conservation_plain_copy() {
    let src: Vec<u8> = (0..10_000u32).map(|i| (i % 251) as u8).collect();
    let out = copy_file_bytes(&src, &None, 0, 0, false, false, false, false, SparseMode::Auto, MIB, "dst")
        .unwrap();
    assert_eq!(out.announced, src.len() as u64);
    assert_eq!(out.content, src);
    assert!(out.decision.is_none());
}

#[test]
fn resume_default_skips_identical_destination() {
    let src = b"identical content".to_vec();
    let dst = src.clone();
    let out = copy_file_bytes(&src, &Some(dst.clone()), 7, 7, true, false, false, false, SparseMode::Auto, MIB, "dst")
        .unwrap();
    assert_eq!(out.decision, Some(ResumeDecision::SkipIdenticalTail));
    assert_eq!(out.content, dst);
    assert_eq!(out.announced, src.len() as u64);
    assert_eq!(out.materialized, 0);
}

#[test]
fn resume_default_appends_partial_destination() {
    let src: Vec<u8> = (0..1000u32).map(|i| (i % 199) as u8).collect();
    let dst: Vec<u8> = src[..400].to_vec();
    let out = copy_file_bytes(&src, &Some(dst), 7, 7, true, false, false, false, SparseMode::Auto, MIB, "dst")
        .unwrap();
    assert_eq!(out.decision, Some(ResumeDecision::AppendFromOffset(400)));
    assert_eq!(out.content, src);
    // The whole size is announced: the already-present 400 bytes at the
    // resume point, then the 600 transferred bytes.
    assert_eq!(out.announced, 1000);
    assert_eq!(out.announced - 400, 600);
}

#[test]
fn resume_default_overwrites_on_mtime_change() {
    let src = b"new content".to_vec();
    let dst = b"new".to_vec();
    let out = copy_file_bytes(&src, &Some(dst), 8, 7, true, false, false, false, SparseMode::Auto, MIB, "dst")
        .unwrap();
    assert_eq!(out.decision, Some(ResumeDecision::OverwriteFromStart));
    assert_eq!(out.content, src);
    assert_eq!(out.announced, src.len() as u64);
}

#[test]
fn strict_skips_only_on_matching_hash() {
    let src = b"strict content".to_vec();
    let same = src.clone();
    let out = copy_file_bytes(&src, &Some(same.clone()), 1, 2, false, false, true, false, SparseMode::Auto, MIB, "dst")
        .unwrap();
    assert_eq!(out.decision, Some(ResumeDecision::SkipIdenticalTail));
    assert_eq!(out.announced, src.len() as u64);
    assert_eq!(out.materialized, 0);

    // Same size, different content: the hashes differ, so it rewrites.
    let mut other = src.clone();
    other[0] ^= 0xFF;
    let out = copy_file_bytes(&src, &Some(other), 1, 2, false, false, true, false, SparseMode::Auto, MIB, "dst")
        .unwrap();
    assert_eq!(out.decision, Some(ResumeDecision::OverwriteFromStart));
    assert_eq!(out.content, src);
}

#[test]
fn strict_appends_true_prefix_and_rewrites_false_one() {
    let src: Vec<u8> = (0..5000u32).map(|i| (i % 127) as u8).collect();
    let prefix: Vec<u8> = src[..2000].to_vec();
    let out = copy_file_bytes(&src, &Some(prefix), 1, 2, false, false, true, false, SparseMode::Auto, MIB, "dst")
        .unwrap();
    assert_eq!(out.decision, Some(ResumeDecision::AppendFromOffset(2000)));
    assert_eq!(out.content, src);

    let mut bogus: Vec<u8> = src[..2000].to_vec();
    bogus[100] ^= 0xFF;
    let out = copy_file_bytes(&src, &Some(bogus), 1, 2, false, false, true, false, SparseMode::Auto, MIB, "dst")
        .unwrap();
    assert_eq!(out.decision, Some(ResumeDecision::OverwriteFromStart));
    assert_eq!(out.content, src);
}

#[test]
fn append_mode_ignores_mtimes_and_hashes() {
    let src = b"0123456789".to_vec();
    let dst = b"xxxx".to_vec();
    // Different mtimes, mismatching prefix: append mode still appends.
    let out = copy_file_bytes(&src, &Some(dst), 1, 99, false, true, false, false, SparseMode::Auto, MIB, "dst")
        .unwrap();
    assert_eq!(out.decision, Some(ResumeDecision::AppendFromOffset(4)));
    assert_eq!(out.content, b"xxxx456789".to_vec());
    assert_eq!(out.announced, 10);
}

#[test]
fn verify_catches_corrupt_append() {
    let src = b"0123456789".to_vec();
    let dst = b"xxxx".to_vec();
    let r = copy_file_bytes(&src, &Some(dst), 1, 99, false, true, false, true, SparseMode::Auto, MIB, "the-target");
    match r {
        Err(BcmrError::VerificationError(p)) => assert_eq!(p, "the-target"),
        other => panic!("expected a verification failure, got {:?}", other.is_ok()),
    }
}

#[test]
fn verify_passes_on_clean_copy() {
    let src = b"clean".to_vec();
    let out = copy_file_bytes(&src, &Some(b"old".to_vec()), 1, 99, true, false, false, true, SparseMode::Auto, MIB, "dst")
        .unwrap();
    assert_eq!(out.content, src);
}

#[test]
fn sparse_auto_turns_large_zero_runs_into_holes() {
    let mut src = vec![0u8; 4096];
    src.extend_from_slice(b"data");
    let (out, stats) = write_with_holes(&src, 0, 4096, SparseMode::Auto);
    assert_eq!(out, src);
    assert_eq!(stats.announced, 4100);
    // The aligned 4 KiB zero buffer became a hole; only the tail bytes
    // were materialized.
    assert_eq!(stats.materialized, 4);
}

#[test]
fn sparse_auto_keeps_small_zero_runs() {
    let src = vec![0u8; 100];
    let (out, stats) = write_with_holes(&src, 0, 4096, SparseMode::Auto);
    assert_eq!(out, src);
    assert_eq!(stats.materialized, 100);
}

#[test]
fn sparse_always_holes_any_zero_buffer() {
    let src = vec![0u8; 100];
    let (_, stats) = write_with_holes(&src, 0, 4096, SparseMode::Always);
    assert_eq!(stats.materialized, 0);
}

#[test]
fn sparse_never_materializes_everything() {
    let mut src = vec![0u8; 8192];
    src.extend_from_slice(b"tail");
    let (_, stats) = write_with_holes(&src, 0, 4096, SparseMode::Never);
    assert_eq!(stats.materialized, 8196);
}

#[test]
fn resume_decision_table() {
    // Append mode: sizes alone.
    assert_eq!(decide_append(10, 10), ResumeDecision::SkipIdenticalTail);
    assert_eq!(decide_append(10, 4), ResumeDecision::AppendFromOffset(4));
    assert_eq!(decide_append(10, 12), ResumeDecision::OverwriteFromStart);
    // Default mode: mtimes first.
    assert_eq!(decide_default(10, 4, 5, 6), ResumeDecision::OverwriteFromStart);
    assert_eq!(decide_default(10, 10, 5, 5), ResumeDecision::SkipIdenticalTail);
    assert_eq!(decide_default(10, 4, 5, 5), ResumeDecision::AppendFromOffset(4));
    assert_eq!(decide_default(10, 12, 5, 5), ResumeDecision::OverwriteFromStart);
    // Strict mode: the hash comparison decides.
    assert_eq!(decide_strict(10, 10, true), ResumeDecision::SkipIdenticalTail);
    assert_eq!(decide_strict(10, 10, false), ResumeDecision::OverwriteFromStart);
    assert_eq!(decide_strict(10, 4, true), ResumeDecision::AppendFromOffset(4));
    assert_eq!(decide_strict(10, 4, false), ResumeDecision::OverwriteFromStart);
    assert_eq!(decide_strict(10, 12, true), ResumeDecision::OverwriteFromStart);
}

#[test]
fn cross_device_fallback_preserves_bytes() {
    let src: Vec<u8> = (0..3000u32).map(|i| (i % 97) as u8).collect();
    let (dst, announced) = move_fallback_bytes(&src, SparseMode::Auto, MIB);
    assert_eq!(dst, src);
    assert_eq!(announced, src.len() as u64);
}

#[test]
fn rename_error_falls_back_only_cross_device() {
    assert_eq!(on_rename_error(true, "err").unwrap(), RenameFallback::CopyThenDelete);
    match on_rename_error(false, "permission denied") {
        Err(BcmrError::Io(m)) => assert_eq!(m, "permission denied"),
        _ => panic!("expected the failure to propagate"),
    }
}

#[test]
fn move_plans_follow_the_rules() {
    let ex = no_excludes();
    // A file moving into a directory gets the joined target.
    match plan_move("/a/f.txt", "f.txt", PathKind::File, "/dst", true, false, true, false, false, &ex) {
        Ok(MovePlan::FileRename { target, delete_first }) => {
            assert_eq!(target, "/dst/f.txt");
            assert!(!delete_first);
        }
        _ => panic!("expected a file rename plan"),
    }
    // A collision without force is fatal.
    match plan_move("/a/f.txt", "f.txt", PathKind::File, "/dst", true, true, false, false, false, &ex) {
        Err(BcmrError::TargetExists(p)) => assert_eq!(p, "/dst/f.txt"),
        _ => panic!("expected a collision error"),
    }
    // A collision with force deletes first.
    match plan_move("/a/f.txt", "f.txt", PathKind::File, "/dst", true, true, false, true, false, &ex) {
        Ok(MovePlan::FileRename { delete_first, .. }) => assert!(delete_first),
        _ => panic!("expected a forced rename plan"),
    }
    // A directory without the recursive flag is refused.
    match plan_move("/a/d", "d", PathKind::Dir, "/dst", true, false, false, false, false, &ex) {
        Err(BcmrError::InvalidInput(m)) => {
            assert_eq!(m, "Source '/a/d' is a directory. Use -r flag for recursive move.")
        }
        _ => panic!("expected invalid input"),
    }
    // A recursive directory move without excludes renames in one step.
    match plan_move("/a/d", "d", PathKind::Dir, "/dst", false, false, true, false, false, &ex) {
        Ok(MovePlan::DirRename { target }) => assert_eq!(target, "/dst"),
        _ => panic!("expected a directory rename plan"),
    }
    // Active excludes bypass the rename.
    let pats = vec![String::from("keep$")];
    let compiled = bcmr::exclude::compile_excludes(&pats).unwrap();
    match plan_move("/a/d", "d", PathKind::Dir, "/dst", true, false, true, false, false, &compiled) {
        Ok(MovePlan::DirCopyWithExcludes { target }) => assert_eq!(target, "/dst/d"),
        _ => panic!("expected copy with excludes"),
    }
    // A missing source is reported as such.
    match plan_move("/a/gone", "gone", PathKind::Missing, "/dst", true, false, true, false, false, &ex) {
        Err(BcmrError::SourceNotFound(p)) => assert_eq!(p, "/a/gone"),
        _ => panic!("expected source-not-found"),
    }
}
