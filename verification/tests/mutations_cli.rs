use gg::messages::{
    AbandonRevisions, ChangeId, CheckoutRevision, CommitId, CopyChanges, CreateRef, CreateRevision,
    CreateRevisionBetween, DeleteRef, DescribeRevision, DuplicateRevisions, GitFetch,
    InsertRevisions, MoveChanges, MoveRef, MoveRevisions, MoveSource, RenameBranch, RevId, StoreRef,
    TrackBranch, TreePath, UndoOperation, UntrackBranch,
};
use gg::protocol::{Check, Command, Outcome, Reply, Report, Request, Step};

fn s(x: &str) -> String {
    x.to_string()
}

fn strings(v: &[&str]) -> Vec<String> {
    v.iter().map(|x| x.to_string()).collect()
}

fn commit(hex: &str) -> CommitId {
    CommitId { hex: s(hex), prefix: s(&hex[..2]), rest: s(&hex[2..]) }
}

fn rev(change: &str, hex: &str) -> RevId {
    RevId {
        change: ChangeId { hex: s(change), prefix: s(&change[..2]), rest: s(&change[2..]) },
        commit: commit(hex),
    }
}

fn local(name: &str) -> StoreRef {
    StoreRef::LocalBookmark { branch_name: s(name) }
}

fn remote(name: &str, remote_name: &str) -> StoreRef {
    StoreRef::RemoteBookmark { branch_name: s(name), remote_name: s(remote_name) }
}

fn tag(name: &str) -> StoreRef {
    StoreRef::Tag { tag_name: s(name) }
}

fn asks_to_run(step: Step, args: &[&str], context: &str) {
    assert_eq!(
        step,
        Step::Ask { request: Request::Run { command: Command {
                    args: strings(args),
                    context: s(context),
                    ignore_working_copy: true,
                } } }
    );
}

fn refused(step: Step, message: &str) {
    assert_eq!(step, Step::Done { outcome: Outcome::PreconditionError { message: s(message) } });
}

fn done(outcome: Outcome) -> Step {
    Step::Done { outcome }
}

fn ran() -> Reply {
    Reply::CommandSucceeded
}

fn reloaded(changed: bool) -> Reply {
    Reply::Reloaded { changed }
}

fn immutable(immutable: bool) -> Reply {
    Reply::Immutable { immutable }
}

#[test]
fn abandon_checks_revset_then_runs_and_reloads() {
    let m = AbandonRevisions { revset: s("abc::") };
    assert_eq!(
        m.execute_cli(&vec![]),
        Step::Ask {
            request: Request::Check {
                check: Check::ImmutableRevset {
                    revset: s("abc::"),
                    message: s("Cannot abandon immutable revision"),
                },
            },
        }
    );
    asks_to_run(m.execute_cli(&vec![immutable(false)]), &["abandon", "abc::"], "Failed to abandon revisions via CLI");
    assert_eq!(m.execute_cli(&vec![immutable(false), ran()]), Step::Ask { request: Request::Reload });
    assert_eq!(
        m.execute_cli(&vec![immutable(false), ran(), reloaded(true)]),
        done(Outcome::Changed { report: Report::Status })
    );
    assert_eq!(m.execute_cli(&vec![immutable(false), ran(), reloaded(false)]), done(Outcome::Unchanged));
}

#[test]
fn abandon_of_immutable_revision_is_refused() {
    let m = AbandonRevisions { revset: s("root()") };
    refused(m.execute_cli(&vec![immutable(true)]), "Cannot abandon immutable revision");
    refused(m.execute_cli(&vec![immutable(true), ran(), reloaded(true)]), "Cannot abandon immutable revision");
}

#[test]
fn failed_command_carries_its_context() {
    let m = AbandonRevisions { revset: s("x") };
    assert_eq!(
        m.execute_cli(&vec![immutable(false), Reply::Failed { cause: s("boom") }]),
        done(Outcome::Failed { context: Some(s("Failed to abandon revisions via CLI")), cause: s("boom") })
    );
}

#[test]
fn failed_check_ends_without_context() {
    let m = AbandonRevisions { revset: s("bad(") };
    assert_eq!(
        m.execute_cli(&vec![Reply::Failed { cause: s("parse error") }]),
        done(Outcome::Failed { context: None, cause: s("parse error") })
    );
}

#[test]
fn unexpected_reply_ends_the_mutation() {
    let m = AbandonRevisions { revset: s("x") };
    assert_eq!(m.execute_cli(&vec![Reply::Resolved]), done(Outcome::Unexpected));
    assert_eq!(m.execute_cli(&vec![immutable(false), reloaded(true)]), done(Outcome::Unexpected));
    assert_eq!(m.execute_cli(&vec![immutable(false), ran(), ran()]), done(Outcome::Unexpected));
}

#[test]
fn describe_flow() {
    let m = DescribeRevision { id: rev("kkkk", "c0ffee"), new_description: s("msg"), reset_author: false };
    assert_eq!(
        m.execute_cli(&vec![]),
        Step::Ask { request: Request::Check { check: Check::ResolveChange { rev: rev("kkkk", "c0ffee") } } }
    );
    refused(m.execute_cli(&vec![Reply::Resolved, immutable(true)]), "Revision kk is immutable");
    assert_eq!(
        m.execute_cli(&vec![Reply::Resolved, immutable(false), Reply::Description { text: s("msg") }]),
        done(Outcome::Unchanged)
    );
    asks_to_run(
        m.execute_cli(&vec![Reply::Resolved, immutable(false), Reply::Description { text: s("old") }]),
        &["describe", "-m", "msg", "c0ffee"],
        "Failed to describe revision via CLI",
    );
}

#[test]
fn describe_with_author_reset_runs_even_when_unchanged() {
    let m = DescribeRevision { id: rev("kkkk", "c0ffee"), new_description: s("msg"), reset_author: true };
    asks_to_run(
        m.execute_cli(&vec![Reply::Resolved, immutable(false), Reply::Description { text: s("msg") }]),
        &["describe", "-m", "msg", "c0ffee"],
        "Failed to describe revision via CLI",
    );
}

#[test]
fn duplicate_lists_commits() {
    let m = DuplicateRevisions { ids: vec![rev("aaaa", "111111"), rev("bbbb", "222222")] };
    asks_to_run(m.execute_cli(&vec![]), &["duplicate", "111111", "222222"], "Failed to duplicate revisions via CLI");
}

#[test]
fn checkout_flow() {
    let m = CheckoutRevision { id: rev("kkkk", "abcdef") };
    refused(m.execute_cli(&vec![Reply::Resolved, immutable(true)]), "Revision is immutable");
    assert_eq!(
        m.execute_cli(&vec![Reply::Resolved, immutable(false), Reply::WorkingCopy { is_working_copy: true }]),
        done(Outcome::Unchanged)
    );
    let answered = vec![Reply::Resolved, immutable(false), Reply::WorkingCopy { is_working_copy: false }];
    asks_to_run(m.execute_cli(&answered), &["edit", "abcdef"], "Failed to checkout revision via CLI");
    let mut all = answered.clone();
    all.push(ran());
    all.push(reloaded(true));
    assert_eq!(m.execute_cli(&all), done(Outcome::Changed { report: Report::ResolvedSelection }));
}

#[test]
fn create_revision_reports_working_copy() {
    let m = CreateRevision { parent_ids: vec![rev("aaaa", "111111"), rev("bbbb", "222222")] };
    asks_to_run(m.execute_cli(&vec![]), &["new", "111111", "222222"], "Failed to create new revision via CLI");
    assert_eq!(
        m.execute_cli(&vec![ran(), reloaded(true)]),
        done(Outcome::Changed { report: Report::WorkingCopySelection { header_flag: Some(false) } })
    );
}

#[test]
fn undo_runs_operation_undo() {
    let m = UndoOperation;
    asks_to_run(m.execute_cli(&vec![]), &["operation", "undo"], "Failed to undo operation via CLI");
    assert_eq!(
        m.execute_cli(&vec![ran(), reloaded(true)]),
        done(Outcome::Changed { report: Report::WorkingCopySelection { header_flag: None } })
    );
}

#[test]
fn track_branch_cases() {
    refused(TrackBranch { store_ref: tag("v1") }.execute_cli(&vec![]), "v1 is a tag and cannot be tracked");
    refused(
        TrackBranch { store_ref: local("main") }.execute_cli(&vec![]),
        "main is a local bookmark and cannot be tracked",
    );
    asks_to_run(
        TrackBranch { store_ref: remote("main", "origin") }.execute_cli(&vec![]),
        &["bookmark", "track", "origin@main"],
        "Failed to track branch via CLI",
    );
}

#[test]
fn untrack_branch_cases() {
    refused(UntrackBranch { store_ref: tag("v1") }.execute_cli(&vec![]), "v1 is a tag and cannot be untracked");
    asks_to_run(
        UntrackBranch { store_ref: local("main") }.execute_cli(&vec![]),
        &["bookmark", "untrack", "main@*"],
        "Failed to untrack branch via CLI",
    );
    asks_to_run(
        UntrackBranch { store_ref: remote("main", "origin") }.execute_cli(&vec![]),
        &["bookmark", "untrack", "origin@main"],
        "Failed to untrack branch via CLI",
    );
}

#[test]
fn create_ref_cases() {
    let id = rev("kkkk", "abc123");
    let m = CreateRef { id: id.clone(), store_ref: remote("main", "origin") };
    assert_eq!(
        m.execute_cli(&vec![]),
        Step::Ask { request: Request::Check { check: Check::ResolveChange { rev: id.clone() } } }
    );
    refused(m.execute_cli(&vec![Reply::Resolved]), "main@origin is a remote bookmark and cannot be created");
    asks_to_run(
        CreateRef { id: id.clone(), store_ref: local("feat") }.execute_cli(&vec![Reply::Resolved]),
        &["bookmark", "create", "feat", "-r", "abc123"],
        "Failed to create bookmark via CLI",
    );
    asks_to_run(
        CreateRef { id: id.clone(), store_ref: tag("v2") }.execute_cli(&vec![Reply::Resolved]),
        &["tag", "create", "v2", "-r", "abc123"],
        "Failed to create tag via CLI",
    );
    assert_eq!(
        CreateRef { id, store_ref: tag("v2") }.execute_cli(&vec![Reply::Failed { cause: s("no such revision") }]),
        done(Outcome::Failed { context: None, cause: s("no such revision") })
    );
}

#[test]
fn delete_ref_cases() {
    asks_to_run(
        DeleteRef { store_ref: remote("main", "origin") }.execute_cli(&vec![]),
        &["bookmark", "forget", "main@origin"],
        "Failed to delete remote bookmark via CLI",
    );
    asks_to_run(
        DeleteRef { store_ref: local("main") }.execute_cli(&vec![]),
        &["bookmark", "delete", "main"],
        "Failed to delete bookmark via CLI",
    );
    asks_to_run(
        DeleteRef { store_ref: tag("v1") }.execute_cli(&vec![]),
        &["tag", "delete", "v1"],
        "Failed to delete tag via CLI",
    );
}

#[test]
fn move_ref_cases() {
    let to = rev("kkkk", "feed00");
    refused(
        MoveRef { store_ref: remote("main", "origin"), to_id: to.clone() }.execute_cli(&vec![Reply::Resolved]),
        "main@origin is a remote bookmark and cannot be moved",
    );
    asks_to_run(
        MoveRef { store_ref: local("main"), to_id: to.clone() }.execute_cli(&vec![Reply::Resolved]),
        &["bookmark", "set", "main", "-r", "feed00", "--allow-backwards"],
        "Failed to move bookmark via CLI",
    );
}

#[test]
fn moving_a_tag_deletes_then_recreates_it() {
    let m = MoveRef { store_ref: tag("v1"), to_id: rev("kkkk", "feed00") };
    asks_to_run(m.execute_cli(&vec![Reply::Resolved]), &["tag", "delete", "v1"], "Failed to delete tag via CLI");
    asks_to_run(
        m.execute_cli(&vec![Reply::Resolved, ran()]),
        &["tag", "create", "v1", "-r", "feed00"],
        "Failed to recreate tag via CLI",
    );
    assert_eq!(m.execute_cli(&vec![Reply::Resolved, ran(), ran()]), Step::Ask { request: Request::Reload });
    assert_eq!(
        m.execute_cli(&vec![Reply::Resolved, Reply::Failed { cause: s("x") }]),
        done(Outcome::Failed { context: Some(s("Failed to delete tag via CLI")), cause: s("x") })
    );
}

#[test]
fn git_fetch_cases() {
    let ctx = "Failed to fetch from git remote via CLI";
    asks_to_run(
        GitFetch::AllBookmarks { remote_name: s("origin") }.execute_cli(&vec![]),
        &["git", "fetch", "--remote", "origin"],
        ctx,
    );
    asks_to_run(
        GitFetch::AllRemotes { branch_ref: local("main") }.execute_cli(&vec![]),
        &["git", "fetch", "--branch", "main"],
        ctx,
    );
    asks_to_run(
        GitFetch::RemoteBookmark { remote_name: s("up"), branch_ref: remote("dev", "origin") }.execute_cli(&vec![]),
        &["git", "fetch", "--remote", "up", "--branch", "dev"],
        ctx,
    );
    assert_eq!(
        GitFetch::AllRemotes { branch_ref: tag("v1") }.execute_cli(&vec![]),
        done(Outcome::Failed { context: None, cause: s("v1 is not a bookmark") })
    );
}

#[test]
fn move_revisions_adds_a_destination_per_parent() {
    let m = MoveRevisions { revset: s("x|y"), parent_ids: vec![rev("aaaa", "111111"), rev("bbbb", "222222")] };
    refused(m.execute_cli(&vec![immutable(true)]), "Cannot move immutable revision");
    asks_to_run(
        m.execute_cli(&vec![immutable(false)]),
        &["rebase", "-r", "x|y", "-d", "111111", "-d", "222222"],
        "Failed to rebase revision via CLI",
    );
}

#[test]
fn move_source_rebases_with_descendants() {
    let m = MoveSource { id: rev("kkkk", "abcdef"), parent_ids: vec![commit("111111")] };
    refused(m.execute_cli(&vec![Reply::Resolved, immutable(true)]), "Revision kk is immutable");
    asks_to_run(
        m.execute_cli(&vec![Reply::Resolved, immutable(false)]),
        &["rebase", "-s", "abcdef", "-d", "111111"],
        "Failed to rebase source via CLI",
    );
}

#[test]
fn copy_changes_restores_paths() {
    let m = CopyChanges {
        from_id: commit("111111"),
        to_id: rev("kkkk", "222222"),
        paths: vec![TreePath { repo_path: s("src/a.rs") }, TreePath { repo_path: s("b") }],
    };
    refused(m.execute_cli(&vec![Reply::Resolved, immutable(true)]), "Revisions are immutable");
    asks_to_run(
        m.execute_cli(&vec![Reply::Resolved, immutable(false)]),
        &["restore", "--from", "111111", "--into", "222222", "src/a.rs", "b"],
        "Failed to restore changes via CLI",
    );
}

#[test]
fn move_changes_squashes() {
    let m = MoveChanges { from_id: rev("kkkk", "111111"), to_id: commit("222222"), paths: vec![] };
    assert_eq!(
        m.execute_cli(&vec![]),
        Step::Ask { request: Request::Check { check: Check::ResolveCommit { commit: commit("222222") } } }
    );
    asks_to_run(
        m.execute_cli(&vec![Reply::Resolved, immutable(false)]),
        &["squash", "--from", "111111", "--into", "222222"],
        "Failed to squash changes via CLI",
    );
}

#[test]
fn create_revision_between_inserts() {
    let m = CreateRevisionBetween { after_id: commit("111111"), before_id: rev("kkkk", "222222") };
    refused(m.execute_cli(&vec![Reply::Resolved, immutable(true)]), "'Before' revision is immutable");
    asks_to_run(
        m.execute_cli(&vec![Reply::Resolved, immutable(false)]),
        &["new", "--insert-after", "111111", "--insert-before", "222222"],
        "Failed to create revision between via CLI",
    );
}

#[test]
fn rename_branch_cases() {
    asks_to_run(
        RenameBranch { store_ref: local("old"), new_name: s("new") }.execute_cli(&vec![]),
        &["bookmark", "rename", "old", "new"],
        "Failed to rename bookmark via CLI",
    );
    assert_eq!(
        RenameBranch { store_ref: tag("t"), new_name: s("new") }.execute_cli(&vec![]),
        done(Outcome::Failed { context: None, cause: s("t is not a bookmark") })
    );
}

#[test]
fn insert_revisions_checks_both() {
    let m = InsertRevisions { revset: s("r"), after_id: rev("aaaa", "111111"), before_id: rev("bbbb", "222222") };
    refused(m.execute_cli(&vec![Reply::Resolved, immutable(true)]), "Cannot insert before immutable revision");
    refused(m.execute_cli(&vec![Reply::Resolved, immutable(false), immutable(true)]), "Cannot move immutable revision");
    asks_to_run(
        m.execute_cli(&vec![Reply::Resolved, immutable(false), immutable(false)]),
        &["rebase", "-r", "r", "--insert-after", "111111", "--insert-before", "222222"],
        "Failed to insert revision via CLI",
    );
}

#[test]
fn finished_mutation_ignores_further_replies() {
    let m = TrackBranch { store_ref: remote("main", "origin") };
    let end = m.execute_cli(&vec![ran(), reloaded(false)]);
    assert_eq!(end, done(Outcome::Unchanged));
    assert_eq!(m.execute_cli(&vec![ran(), reloaded(false), ran(), reloaded(true)]), end);
}
