//! What each mutation carried out with `jj` does, stated over the replies of
//! its driver: which revision it checks first, what refuses it, and which
//! command it runs and reports when nothing refuses it.

use vstd::prelude::*;

use crate::messages::{
    AbandonRevisions, CheckoutRevision, CreateRef, CreateRevision, DeleteRef, DescribeRevision,
    DuplicateRevisions, GitFetch, MoveRef, MoveRevisions, MoveSource, RenameBranch, StoreRef,
    TrackBranch, UndoOperation, UntrackBranch,
};
use crate::mutations_cli::{asks_to_run, destination_args, refused_with};
use crate::protocol::{
    next_step, CheckModel, OutcomeModel, PlanModel, ReplyModel, Report, RequestModel, StepModel,
};

verus! {

/// After the replies `before`, the mutation runs the command `args` without
/// touching the working copy, then reloads the repository, and reports
/// `report` when the reload changed it and nothing otherwise.
pub open spec fn runs_then_reports(plan: PlanModel, before: Seq<ReplyModel>, args: Seq<Seq<char>>, report: Report) -> bool {
    let ran = before.push(ReplyModel::CommandSucceeded);
    &&& asks_to_run(next_step(plan, before), args)
    &&& next_step(plan, ran) == (StepModel::Ask { request: RequestModel::Reload })
    &&& next_step(plan, ran.push(ReplyModel::Reloaded { changed: true })) == (StepModel::Done {
        outcome: OutcomeModel::Changed { report },
    })
    &&& next_step(plan, ran.push(ReplyModel::Reloaded { changed: false })) == (StepModel::Done {
        outcome: OutcomeModel::Unchanged,
    })
}

/// The first request of the mutation is the check `check`.
pub open spec fn first_checks(plan: PlanModel, check: CheckModel) -> bool {
    next_step(plan, seq![]) == (StepModel::Ask { request: RequestModel::Check { check } })
}

/// The mutation ends at once with `outcome`, asking nothing.
pub open spec fn ends_at_once(plan: PlanModel, outcome: OutcomeModel) -> bool {
    next_step(plan, seq![]) == (StepModel::Done { outcome })
}

/// `-d <hash>` for each hash of `hexes`: an argument list twice as long,
/// with `-d` before each hash, in order.
pub proof fn lemma_destination_args(hexes: Seq<Seq<char>>)
    ensures
        destination_args(hexes).len() == 2 * hexes.len(),
        forall|i: int|
            0 <= i < hexes.len() ==> #[trigger] destination_args(hexes)[2 * i] == "-d"@
                && destination_args(hexes)[2 * i + 1] == hexes[i],
    decreases hexes.len(),
{
    if hexes.len() > 0 {
        lemma_destination_args(hexes.drop_last());
        let prev = destination_args(hexes.drop_last());
        assert forall|i: int| 0 <= i < hexes.len() implies #[trigger] destination_args(hexes)[2 * i]
            == "-d"@ && destination_args(hexes)[2 * i + 1] == hexes[i] by {
            if i < hexes.len() - 1 {
                assert(hexes.drop_last()[i] == hexes[i]);
                assert(destination_args(hexes)[2 * i] == prev[2 * i]);
                assert(destination_args(hexes)[2 * i + 1] == prev[2 * i + 1]);
            }
        }
    }
}

/// Abandoning refuses a revset that holds an immutable revision; otherwise
/// it abandons exactly that revset and reports the new status.
pub proof fn law_abandon(m: AbandonRevisions)
    ensures
        first_checks(
            m.planned(),
            CheckModel::ImmutableRevset {
                revset: m.revset@,
                message: "Cannot abandon immutable revision"@,
            },
        ),
        refused_with(
            next_step(m.planned(), seq![ReplyModel::Immutable { immutable: true }]),
            "Cannot abandon immutable revision"@,
        ),
        runs_then_reports(
            m.planned(),
            seq![ReplyModel::Immutable { immutable: false }],
            seq!["abandon"@, m.revset@],
            Report::Status,
        ),
{
    reveal_with_fuel(crate::protocol::step_from, 4);
}

/// Describing resolves the revision, refuses it when immutable, changes
/// nothing when the description is already the new one and the author is
/// not reset, and otherwise sets the new description on that commit.
pub proof fn law_describe(m: DescribeRevision, current: Seq<char>)
    ensures
        first_checks(m.planned(), CheckModel::ResolveChange { rev: m.id@ }),
        refused_with(
            next_step(m.planned(), seq![ReplyModel::Resolved, ReplyModel::Immutable { immutable: true }]),
            "Revision "@ + m.id.change.prefix@ + " is immutable"@,
        ),
        current == m.new_description@ && !m.reset_author ==> next_step(
            m.planned(),
            seq![
                ReplyModel::Resolved,
                ReplyModel::Immutable { immutable: false },
                ReplyModel::Description { text: current },
            ],
        ) == (StepModel::Done { outcome: OutcomeModel::Unchanged }),
        !(current == m.new_description@ && !m.reset_author) ==> runs_then_reports(
            m.planned(),
            seq![
                ReplyModel::Resolved,
                ReplyModel::Immutable { immutable: false },
                ReplyModel::Description { text: current },
            ],
            seq!["describe"@, "-m"@, m.new_description@, m.id.commit.hex@],
            Report::Status,
        ),
{
    reveal_with_fuel(crate::protocol::step_from, 6);
}

/// Duplicating checks nothing and duplicates exactly the given revisions,
/// by their commit hashes, in order.
pub proof fn law_duplicate(m: DuplicateRevisions)
    ensures
        next_step(m.planned(), seq![]) matches StepModel::Ask {
            request: RequestModel::Run { command },
        } && command.ignore_working_copy && command.args.len() == 1 + m.ids@.len()
            && command.args[0] == "duplicate"@ && forall|i: int|
            0 <= i < m.ids@.len() ==> #[trigger] command.args[1 + i] == m.ids@[i].commit.hex@,
{
    reveal_with_fuel(crate::protocol::step_from, 2);
    let args = seq!["duplicate"@] + crate::mutations_cli::rev_hexes(m.ids@);
    assert forall|i: int| 0 <= i < m.ids@.len() implies #[trigger] args[1 + i]
        == m.ids@[i].commit.hex@ by {
        assert(args[1 + i] == crate::mutations_cli::rev_hexes(m.ids@)[i]);
    }
}

/// Checking out resolves the revision, refuses it when immutable, changes
/// nothing when it already is the working copy, and otherwise edits exactly
/// that commit and selects it.
pub proof fn law_checkout(m: CheckoutRevision)
    ensures
        first_checks(m.planned(), CheckModel::ResolveChange { rev: m.id@ }),
        refused_with(
            next_step(m.planned(), seq![ReplyModel::Resolved, ReplyModel::Immutable { immutable: true }]),
            "Revision is immutable"@,
        ),
        next_step(
            m.planned(),
            seq![
                ReplyModel::Resolved,
                ReplyModel::Immutable { immutable: false },
                ReplyModel::WorkingCopy { is_working_copy: true },
            ],
        ) == (StepModel::Done { outcome: OutcomeModel::Unchanged }),
        runs_then_reports(
            m.planned(),
            seq![
                ReplyModel::Resolved,
                ReplyModel::Immutable { immutable: false },
                ReplyModel::WorkingCopy { is_working_copy: false },
            ],
            seq!["edit"@, m.id.commit.hex@],
            Report::ResolvedSelection,
        ),
{
    reveal_with_fuel(crate::protocol::step_from, 6);
}

/// Creating a revision checks nothing, creates it on exactly the given
/// parents, in order, and selects the new working-copy commit.
pub proof fn law_create_revision(m: CreateRevision)
    ensures
        next_step(m.planned(), seq![]) matches StepModel::Ask {
            request: RequestModel::Run { command },
        } && command.ignore_working_copy && command.args.len() == 1 + m.parent_ids@.len()
            && command.args[0] == "new"@ && forall|i: int|
            0 <= i < m.parent_ids@.len() ==> #[trigger] command.args[1 + i]
                == m.parent_ids@[i].commit.hex@,
        next_step(m.planned(), seq![ReplyModel::CommandSucceeded, ReplyModel::Reloaded { changed: true }])
            == (StepModel::Done {
            outcome: OutcomeModel::Changed {
                report: Report::WorkingCopySelection { header_flag: Some(false) },
            },
        }),
{
    reveal_with_fuel(crate::protocol::step_from, 3);
    let args = seq!["new"@] + crate::mutations_cli::rev_hexes(m.parent_ids@);
    assert forall|i: int| 0 <= i < m.parent_ids@.len() implies #[trigger] args[1 + i]
        == m.parent_ids@[i].commit.hex@ by {
        assert(args[1 + i] == crate::mutations_cli::rev_hexes(m.parent_ids@)[i]);
    }
}

/// Undoing checks nothing, undoes the last operation and selects the
/// working-copy commit.
pub proof fn law_undo(m: UndoOperation)
    ensures
        runs_then_reports(
            m.planned(),
            seq![],
            seq!["operation"@, "undo"@],
            Report::WorkingCopySelection { header_flag: None },
        ),
{
    reveal_with_fuel(crate::protocol::step_from, 3);
}

/// Tracking refuses a tag and a local bookmark and tracks a remote
/// bookmark as `<remote>@<bookmark>`.
pub proof fn law_track(m: TrackBranch)
    ensures
        m.store_ref matches StoreRef::Tag { tag_name } ==> ends_at_once(
            m.planned(),
            OutcomeModel::PreconditionError { message: tag_name@ + " is a tag and cannot be tracked"@ },
        ),
        m.store_ref matches StoreRef::LocalBookmark { branch_name } ==> ends_at_once(
            m.planned(),
            OutcomeModel::PreconditionError {
                message: branch_name@ + " is a local bookmark and cannot be tracked"@,
            },
        ),
        m.store_ref matches StoreRef::RemoteBookmark { branch_name, remote_name }
            ==> runs_then_reports(
            m.planned(),
            seq![],
            seq!["bookmark"@, "track"@, remote_name@ + "@"@ + branch_name@],
            Report::Status,
        ),
{
    reveal_with_fuel(crate::protocol::step_from, 3);
}

/// Untracking refuses a tag, untracks every remote of a local bookmark with
/// `<bookmark>@*`, and a remote bookmark as `<remote>@<bookmark>`.
pub proof fn law_untrack(m: UntrackBranch)
    ensures
        m.store_ref matches StoreRef::Tag { tag_name } ==> ends_at_once(
            m.planned(),
            OutcomeModel::PreconditionError { message: tag_name@ + " is a tag and cannot be untracked"@ },
        ),
        m.store_ref matches StoreRef::LocalBookmark { branch_name } ==> runs_then_reports(
            m.planned(),
            seq![],
            seq!["bookmark"@, "untrack"@, branch_name@ + "@*"@],
            Report::Status,
        ),
        m.store_ref matches StoreRef::RemoteBookmark { branch_name, remote_name }
            ==> runs_then_reports(
            m.planned(),
            seq![],
            seq!["bookmark"@, "untrack"@, remote_name@ + "@"@ + branch_name@],
            Report::Status,
        ),
{
    reveal_with_fuel(crate::protocol::step_from, 3);
}

/// Creating a reference resolves the revision first; a remote bookmark is
/// refused, and a local bookmark or a tag is created at that revision's
/// commit.
pub proof fn law_create_ref(m: CreateRef)
    ensures
        first_checks(m.planned(), CheckModel::ResolveChange { rev: m.id@ }),
        m.store_ref matches StoreRef::RemoteBookmark { branch_name, remote_name } ==> refused_with(
            next_step(m.planned(), seq![ReplyModel::Resolved]),
            branch_name@ + "@"@ + remote_name@ + " is a remote bookmark and cannot be created"@,
        ),
        m.store_ref matches StoreRef::LocalBookmark { branch_name } ==> runs_then_reports(
            m.planned(),
            seq![ReplyModel::Resolved],
            seq!["bookmark"@, "create"@, branch_name@, "-r"@, m.id.commit.hex@],
            Report::Status,
        ),
        m.store_ref matches StoreRef::Tag { tag_name } ==> runs_then_reports(
            m.planned(),
            seq![ReplyModel::Resolved],
            seq!["tag"@, "create"@, tag_name@, "-r"@, m.id.commit.hex@],
            Report::Status,
        ),
{
    reveal_with_fuel(crate::protocol::step_from, 4);
}

/// Deleting a reference checks nothing: a remote bookmark is forgotten as
/// `<bookmark>@<remote>`, a local bookmark or a tag is deleted by name.
pub proof fn law_delete_ref(m: DeleteRef)
    ensures
        m.store_ref matches StoreRef::RemoteBookmark { branch_name, remote_name }
            ==> runs_then_reports(
            m.planned(),
            seq![],
            seq!["bookmark"@, "forget"@, branch_name@ + "@"@ + remote_name@],
            Report::Status,
        ),
        m.store_ref matches StoreRef::LocalBookmark { branch_name } ==> runs_then_reports(
            m.planned(),
            seq![],
            seq!["bookmark"@, "delete"@, branch_name@],
            Report::Status,
        ),
        m.store_ref matches StoreRef::Tag { tag_name } ==> runs_then_reports(
            m.planned(),
            seq![],
            seq!["tag"@, "delete"@, tag_name@],
            Report::Status,
        ),
{
    reveal_with_fuel(crate::protocol::step_from, 3);
}

/// Moving a reference resolves the target revision first; a remote
/// bookmark is refused, a local bookmark is set to the target's commit
/// (backwards too), and a tag is deleted and then created there again.
pub proof fn law_move_ref(m: MoveRef)
    ensures
        first_checks(m.planned(), CheckModel::ResolveChange { rev: m.to_id@ }),
        m.store_ref matches StoreRef::RemoteBookmark { branch_name, remote_name } ==> refused_with(
            next_step(m.planned(), seq![ReplyModel::Resolved]),
            branch_name@ + "@"@ + remote_name@ + " is a remote bookmark and cannot be moved"@,
        ),
        m.store_ref matches StoreRef::LocalBookmark { branch_name } ==> runs_then_reports(
            m.planned(),
            seq![ReplyModel::Resolved],
            seq![
                "bookmark"@,
                "set"@,
                branch_name@,
                "-r"@,
                m.to_id.commit.hex@,
                "--allow-backwards"@,
            ],
            Report::Status,
        ),
        m.store_ref matches StoreRef::Tag { tag_name } ==> asks_to_run(
            next_step(m.planned(), seq![ReplyModel::Resolved]),
            seq!["tag"@, "delete"@, tag_name@],
        ) && runs_then_reports(
            m.planned(),
            seq![ReplyModel::Resolved, ReplyModel::CommandSucceeded],
            seq!["tag"@, "create"@, tag_name@, "-r"@, m.to_id.commit.hex@],
            Report::Status,
        ),
{
    reveal_with_fuel(crate::protocol::step_from, 5);
}

/// Fetching checks nothing: all bookmarks of a remote are fetched with
/// `--remote`, one bookmark with `--branch` and its name (after `--remote`
/// when a remote is named); a tag given as the bookmark is an error.
pub proof fn law_fetch(m: GitFetch)
    ensures
        m matches GitFetch::AllBookmarks { remote_name } ==> runs_then_reports(
            m.planned(),
            seq![],
            seq!["git"@, "fetch"@, "--remote"@, remote_name@],
            Report::Status,
        ),
        m matches GitFetch::AllRemotes { branch_ref: StoreRef::LocalBookmark { branch_name } }
            ==> runs_then_reports(
            m.planned(),
            seq![],
            seq!["git"@, "fetch"@, "--branch"@, branch_name@],
            Report::Status,
        ),
        m matches GitFetch::AllRemotes { branch_ref: StoreRef::RemoteBookmark { branch_name, .. } }
            ==> runs_then_reports(
            m.planned(),
            seq![],
            seq!["git"@, "fetch"@, "--branch"@, branch_name@],
            Report::Status,
        ),
        m matches GitFetch::RemoteBookmark {
            remote_name,
            branch_ref: StoreRef::LocalBookmark { branch_name },
        } ==> runs_then_reports(
            m.planned(),
            seq![],
            seq!["git"@, "fetch"@, "--remote"@, remote_name@, "--branch"@, branch_name@],
            Report::Status,
        ),
        m matches GitFetch::RemoteBookmark {
            remote_name,
            branch_ref: StoreRef::RemoteBookmark { branch_name, .. },
        } ==> runs_then_reports(
            m.planned(),
            seq![],
            seq!["git"@, "fetch"@, "--remote"@, remote_name@, "--branch"@, branch_name@],
            Report::Status,
        ),
        m matches GitFetch::AllRemotes { branch_ref: StoreRef::Tag { tag_name } } ==> ends_at_once(
            m.planned(),
            OutcomeModel::Failed { context: None, cause: tag_name@ + " is not a bookmark"@ },
        ),
        m matches GitFetch::RemoteBookmark { branch_ref: StoreRef::Tag { tag_name }, .. }
            ==> ends_at_once(
            m.planned(),
            OutcomeModel::Failed { context: None, cause: tag_name@ + " is not a bookmark"@ },
        ),
{
    reveal_with_fuel(crate::protocol::step_from, 3);
    match m {
        GitFetch::AllRemotes { branch_ref } => match branch_ref {
            StoreRef::LocalBookmark { branch_name } | StoreRef::RemoteBookmark { branch_name, .. } => {
                assert(seq!["git"@, "fetch"@] + seq!["--branch"@, branch_name@] =~= seq![
                    "git"@,
                    "fetch"@,
                    "--branch"@,
                    branch_name@,
                ]);
            },
            _ => {},
        },
        GitFetch::RemoteBookmark { remote_name, branch_ref } => match branch_ref {
            StoreRef::LocalBookmark { branch_name } | StoreRef::RemoteBookmark { branch_name, .. } => {
                assert(seq!["git"@, "fetch"@, "--remote"@, remote_name@] + seq![
                    "--branch"@,
                    branch_name@,
                ] =~= seq!["git"@, "fetch"@, "--remote"@, remote_name@, "--branch"@, branch_name@]);
            },
            _ => {},
        },
        _ => {},
    }
}

/// Moving revisions refuses a revset that holds an immutable revision;
/// otherwise it rebases exactly that revset with `-d` and the commit hash of
/// each new parent, in order.
pub proof fn law_move_revisions(m: MoveRevisions)
    ensures
        first_checks(
            m.planned(),
            CheckModel::ImmutableRevset {
                revset: m.revset@,
                message: "Cannot move immutable revision"@,
            },
        ),
        refused_with(
            next_step(m.planned(), seq![ReplyModel::Immutable { immutable: true }]),
            "Cannot move immutable revision"@,
        ),
        next_step(m.planned(), seq![ReplyModel::Immutable { immutable: false }]) matches StepModel::Ask {
            request: RequestModel::Run { command },
        } && command.ignore_working_copy && command.args.len() == 3 + 2 * m.parent_ids@.len()
            && command.args.take(3) == seq!["rebase"@, "-r"@, m.revset@] && forall|i: int|
            0 <= i < m.parent_ids@.len() ==> #[trigger] command.args[3 + 2 * i] == "-d"@
                && command.args[4 + 2 * i] == m.parent_ids@[i].commit.hex@,
{
    reveal_with_fuel(crate::protocol::step_from, 3);
    let hexes = crate::mutations_cli::rev_hexes(m.parent_ids@);
    lemma_destination_args(hexes);
    let args = seq!["rebase"@, "-r"@, m.revset@] + destination_args(hexes);
    assert(args.take(3) =~= seq!["rebase"@, "-r"@, m.revset@]);
    assert forall|i: int| 0 <= i < m.parent_ids@.len() implies #[trigger] args[3 + 2 * i] == "-d"@
        && args[4 + 2 * i] == m.parent_ids@[i].commit.hex@ by {
        assert(destination_args(hexes)[2 * i] == "-d"@);
        assert(args[3 + 2 * i] == destination_args(hexes)[2 * i]);
        assert(args[4 + 2 * i] == destination_args(hexes)[2 * i + 1]);
    }
}

/// Moving a revision with its descendants resolves it, refuses it when
/// immutable, and otherwise rebases exactly its commit with `-d` and each
/// new parent, in order.
pub proof fn law_move_source(m: MoveSource)
    ensures
        first_checks(m.planned(), CheckModel::ResolveChange { rev: m.id@ }),
        refused_with(
            next_step(m.planned(), seq![ReplyModel::Resolved, ReplyModel::Immutable { immutable: true }]),
            "Revision "@ + m.id.change.prefix@ + " is immutable"@,
        ),
        next_step(m.planned(), seq![ReplyModel::Resolved, ReplyModel::Immutable { immutable: false }])
            matches StepModel::Ask { request: RequestModel::Run { command } }
            && command.ignore_working_copy && command.args.len() == 3 + 2 * m.parent_ids@.len()
            && command.args.take(3) == seq!["rebase"@, "-s"@, m.id.commit.hex@] && forall|i: int|
            0 <= i < m.parent_ids@.len() ==> #[trigger] command.args[3 + 2 * i] == "-d"@
                && command.args[4 + 2 * i] == m.parent_ids@[i].hex@,
{
    reveal_with_fuel(crate::protocol::step_from, 4);
    let hexes = crate::mutations_cli::commit_hexes(m.parent_ids@);
    lemma_destination_args(hexes);
    let args = seq!["rebase"@, "-s"@, m.id.commit.hex@] + destination_args(hexes);
    assert(next_step(
        m.planned(),
        seq![ReplyModel::Resolved, ReplyModel::Immutable { immutable: false }],
    ) == (StepModel::Ask {
        request: RequestModel::Run {
            command: crate::mutations_cli::mutation_command(args, "Failed to rebase source via CLI"@),
        },
    }));
    assert(args.take(3) =~= seq!["rebase"@, "-s"@, m.id.commit.hex@]);
    assert forall|i: int| 0 <= i < m.parent_ids@.len() implies #[trigger] args[3 + 2 * i] == "-d"@
        && args[4 + 2 * i] == m.parent_ids@[i].hex@ by {
        assert(destination_args(hexes)[2 * i] == "-d"@);
        assert(args[3 + 2 * i] == destination_args(hexes)[2 * i]);
        assert(args[4 + 2 * i] == destination_args(hexes)[2 * i + 1]);
    }
}

/// Renaming checks nothing: a bookmark, local or remote, is renamed from
/// its name to the new name; a tag is an error.
pub proof fn law_rename(m: RenameBranch)
    ensures
        m.store_ref matches StoreRef::Tag { tag_name } ==> ends_at_once(
            m.planned(),
            OutcomeModel::Failed { context: None, cause: tag_name@ + " is not a bookmark"@ },
        ),
        m.store_ref matches StoreRef::LocalBookmark { branch_name } ==> runs_then_reports(
            m.planned(),
            seq![],
            seq!["bookmark"@, "rename"@, branch_name@, m.new_name@],
            Report::Status,
        ),
        m.store_ref matches StoreRef::RemoteBookmark { branch_name, .. } ==> runs_then_reports(
            m.planned(),
            seq![],
            seq!["bookmark"@, "rename"@, branch_name@, m.new_name@],
            Report::Status,
        ),
{
    reveal_with_fuel(crate::protocol::step_from, 3);
}

} // verus!
