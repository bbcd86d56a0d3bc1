use gg::hunk::HunkError;
use gg::messages::{
    BackoutRevisions, ChangeHunk, ChangeId, CommitId, FileRange, HunkLocation, MoveHunk,
    MultilineString, RevId, TreePath,
};
use gg::mutations::{
    backout_description_of, is_valid_repo_path, BackoutStep, HunkMoveOutcome, HunkMoveReply,
    HunkMoveRequest, HunkMoveStep,
};

fn s(x: &str) -> String {
    x.to_string()
}

fn rev(hex: &str) -> RevId {
    RevId {
        change: ChangeId { hex: s("zzzz"), prefix: s("zz"), rest: s("zz") },
        commit: CommitId { hex: s(hex), prefix: s(&hex[..2]), rest: s(&hex[2..]) },
    }
}

fn move_hunk(lines: &[&str]) -> MoveHunk {
    MoveHunk {
        from_id: rev("111111"),
        to_id: CommitId { hex: s("222222"), prefix: s("22"), rest: s("2222") },
        path: TreePath { repo_path: s("f.txt") },
        hunk: ChangeHunk {
            location: HunkLocation {
                from_file: FileRange { start: 1, len: 1 },
                to_file: FileRange { start: 1, len: 1 },
            },
            lines: MultilineString { lines: lines.iter().map(|l| s(l)).collect() },
        },
    }
}

fn inspected(source_parents: usize, target_is_descendant: bool, target_parents: usize) -> HunkMoveReply {
    HunkMoveReply::Inspected {
        source_parents,
        target_is_descendant,
        target_parents,
        source_hex: s("111111"),
        target_hex: s("222222"),
    }
}

fn finish() -> HunkMoveRequest {
    HunkMoveRequest::Finish { description: s("move hunk in file f.txt from 111111 to 222222") }
}

fn ask(request: HunkMoveRequest) -> HunkMoveStep {
    HunkMoveStep::Ask { request }
}

fn done(outcome: HunkMoveOutcome) -> HunkMoveStep {
    HunkMoveStep::Done { outcome }
}

#[test]
fn backout_of_one_revision() {
    let m = BackoutRevisions { ids: vec![rev("abcdef")] };
    assert_eq!(m.execute(), BackoutStep::BackOut { id: rev("abcdef") });
}

#[test]
fn backout_of_several_revisions_is_refused() {
    let m = BackoutRevisions { ids: vec![rev("abcdef"), rev("123456")] };
    assert_eq!(m.execute(), BackoutStep::Refuse { message: s("Not implemented for >1 rev") });
    let m = BackoutRevisions { ids: vec![] };
    assert_eq!(m.execute(), BackoutStep::Refuse { message: s("Not implemented for >1 rev") });
}

#[test]
fn move_hunk_to_unrelated_target() {
    let m = move_hunk(&["-a", "+b"]);
    assert_eq!(m.execute(&vec![]), ask(HunkMoveRequest::Inspect));
    let mut replies = vec![inspected(1, false, 1)];
    assert_eq!(m.execute(&replies), ask(HunkMoveRequest::ReadParentFile));
    replies.push(HunkMoveReply::ParentFile { content: b"a\n".to_vec() });
    assert_eq!(m.execute(&replies), ask(HunkMoveRequest::WriteHunk { content: b"b\n".to_vec() }));
    replies.push(HunkMoveReply::HunkWritten { source_emptied: false });
    assert_eq!(m.execute(&replies), ask(HunkMoveRequest::RewriteSource { abandon: false }));
    replies.push(HunkMoveReply::Rewritten);
    assert_eq!(m.execute(&replies), ask(HunkMoveRequest::MergeIntoTarget));
    replies.push(HunkMoveReply::TargetMerged { changed: true });
    assert_eq!(m.execute(&replies), ask(HunkMoveRequest::RewriteTargetTree));
    replies.push(HunkMoveReply::Rewritten);
    assert_eq!(m.execute(&replies), ask(finish()));
    replies.push(HunkMoveReply::Finished { changed: true });
    assert_eq!(m.execute(&replies), done(HunkMoveOutcome::Updated));
}

#[test]
fn move_hunk_skips_unchanged_target_tree() {
    let m = move_hunk(&["-a", "+b"]);
    let replies = vec![
        inspected(1, false, 1),
        HunkMoveReply::ParentFile { content: b"a\n".to_vec() },
        HunkMoveReply::HunkWritten { source_emptied: true },
        HunkMoveReply::Rewritten,
        HunkMoveReply::TargetMerged { changed: false },
    ];
    assert_eq!(m.execute(&replies), ask(finish()));
    let mut finished = replies.clone();
    finished.push(HunkMoveReply::Finished { changed: false });
    assert_eq!(m.execute(&finished), done(HunkMoveOutcome::Unchanged));
}

#[test]
fn move_hunk_to_descendant_reparents() {
    let m = move_hunk(&["-a", "+b"]);
    let replies = vec![
        inspected(1, true, 1),
        HunkMoveReply::ParentFile { content: b"a\n".to_vec() },
        HunkMoveReply::HunkWritten { source_emptied: false },
        HunkMoveReply::Rewritten,
    ];
    assert_eq!(m.execute(&replies), ask(HunkMoveRequest::ReparentTarget));
}

#[test]
fn move_hunk_preconditions() {
    let m = move_hunk(&["-a", "+b"]);
    assert_eq!(
        m.execute(&vec![inspected(2, false, 1)]),
        done(HunkMoveOutcome::PreconditionError { message: s("Cannot move hunk from a merge commit yet") })
    );
    let emptied = vec![
        inspected(1, true, 1),
        HunkMoveReply::ParentFile { content: b"a\n".to_vec() },
        HunkMoveReply::HunkWritten { source_emptied: true },
    ];
    assert_eq!(
        m.execute(&emptied),
        done(HunkMoveOutcome::PreconditionError {
            message: s("Moving a hunk from a commit that becomes empty to a descendant is not yet supported."),
        })
    );
    let merge_target = vec![
        inspected(1, true, 2),
        HunkMoveReply::ParentFile { content: b"a\n".to_vec() },
        HunkMoveReply::HunkWritten { source_emptied: false },
        HunkMoveReply::Rewritten,
    ];
    assert_eq!(
        m.execute(&merge_target),
        done(HunkMoveOutcome::PreconditionError {
            message: s("Moving a hunk to a descendant merge commit is not yet supported."),
        })
    );
}

#[test]
fn move_hunk_rejects_mismatched_hunk() {
    let m = move_hunk(&["-x", "+b"]);
    let replies = vec![inspected(1, false, 1), HunkMoveReply::ParentFile { content: b"a\n".to_vec() }];
    assert_eq!(
        m.execute(&replies),
        done(HunkMoveOutcome::HunkRejected {
            error: HunkError::Mismatch { index: 0, expected: s("x"), found: Some(s("a")) },
        })
    );
}

#[test]
fn move_hunk_past_end_of_file() {
    let mut m = move_hunk(&["+b"]);
    m.hunk.location.from_file.start = 5;
    let replies = vec![inspected(1, false, 1), HunkMoveReply::ParentFile { content: b"a\n".to_vec() }];
    assert_eq!(m.execute(&replies), done(HunkMoveOutcome::HunkOutOfRange));
}

#[test]
fn move_hunk_failure_is_reported() {
    let m = move_hunk(&["-a", "+b"]);
    assert_eq!(
        m.execute(&vec![HunkMoveReply::Failed { cause: s("no such revision") }]),
        done(HunkMoveOutcome::Failed { cause: s("no such revision") })
    );
}

#[test]
fn backout_description_names_the_commit() {
    assert_eq!(backout_description_of(&s("abcdef0123")), "back out commit abcdef0123");
}

#[test]
fn repository_paths() {
    assert!(is_valid_repo_path(&s("")));
    assert!(is_valid_repo_path(&s("f.txt")));
    assert!(is_valid_repo_path(&s("dir/sub/f.txt")));
    assert!(!is_valid_repo_path(&s("/")));
    assert!(!is_valid_repo_path(&s("/foo")));
    assert!(!is_valid_repo_path(&s("foo/")));
    assert!(!is_valid_repo_path(&s("foo//bar")));
}

#[test]
fn move_hunk_fails_on_invalid_path_before_reading() {
    let mut m = move_hunk(&["-a", "+b"]);
    m.path = TreePath { repo_path: s("dir//f.txt") };
    assert_eq!(
        m.execute(&vec![inspected(1, false, 1)]),
        done(HunkMoveOutcome::Failed { cause: s("Invalid repo path input \"dir//f.txt\"") })
    );
    // the merge-commit refusal comes first
    assert_eq!(
        m.execute(&vec![inspected(2, false, 1)]),
        done(HunkMoveOutcome::PreconditionError { message: s("Cannot move hunk from a merge commit yet") })
    );
}

#[test]
fn move_hunk_description_uses_inspected_hashes() {
    let mut m = move_hunk(&["-a", "+b"]);
    m.path = TreePath { repo_path: s("src/lib.rs") };
    let replies = vec![
        HunkMoveReply::Inspected {
            source_parents: 1,
            target_is_descendant: false,
            target_parents: 1,
            source_hex: s("aaaa"),
            target_hex: s("bbbb"),
        },
        HunkMoveReply::ParentFile { content: b"a\n".to_vec() },
        HunkMoveReply::HunkWritten { source_emptied: false },
        HunkMoveReply::Rewritten,
        HunkMoveReply::TargetMerged { changed: false },
    ];
    assert_eq!(
        m.execute(&replies),
        ask(HunkMoveRequest::Finish { description: s("move hunk in file src/lib.rs from aaaa to bbbb") })
    );
}
