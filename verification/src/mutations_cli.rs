//! How each mutation is carried out with the `jj` command line: what it
//! checks first, which commands it runs, and what it reports.

use vstd::prelude::*;
use vstd::string::StringExecFns;

use crate::messages::{
    AbandonRevisions, CheckoutRevision, CommitId, CopyChanges, CreateRef, CreateRevision,
    CreateRevisionBetween, DeleteRef, DescribeRevision, DuplicateRevisions, GitFetch,
    InsertRevisions, MoveChanges, MoveRef, MoveRevisions, MoveSource, RenameBranch, RevId, StoreRef,
    TrackBranch, TreePath, UndoOperation, UntrackBranch,
};
use crate::protocol::{
    next_step, plan_well_formed, replies_model, Check, CheckModel, Command,
    CommandModel, Outcome, OutcomeModel, Plan, PlanModel, Reply, ReplyModel, Report,
    RequestModel, Step, StepModel, Verdict, VerdictModel,
};
use crate::text::{owned, strings_model};

verus! {

/// The commit hashes of the revisions `ids`.
pub open spec fn rev_hexes(ids: Seq<RevId>) -> Seq<Seq<char>> {
    ids.map_values(|id: RevId| id.commit.hex@)
}

/// The hashes of the commits `ids`.
pub open spec fn commit_hexes(ids: Seq<CommitId>) -> Seq<Seq<char>> {
    ids.map_values(|id: CommitId| id.hex@)
}

/// The repository paths of `paths`.
pub open spec fn path_strings(paths: Seq<TreePath>) -> Seq<Seq<char>> {
    paths.map_values(|p: TreePath| p.repo_path@)
}

/// `-d <hash>` for each destination hash, in order.
pub open spec fn destination_args(hexes: Seq<Seq<char>>) -> Seq<Seq<char>>
    decreases hexes.len(),
{
    if hexes.len() == 0 {
        Seq::empty()
    } else {
        destination_args(hexes.drop_last()) + seq!["-d"@, hexes.last()]
    }
}

/// `branch@remote`, how a remote bookmark is named in messages and when it
/// is forgotten.
pub open spec fn remote_bookmark(branch: Seq<char>, remote: Seq<char>) -> Seq<char> {
    branch + "@"@ + remote
}

/// `remote@branch`, how a remote bookmark is named when it is tracked or
/// untracked.
pub open spec fn tracking_ref(remote: Seq<char>, branch: Seq<char>) -> Seq<char> {
    remote + "@"@ + branch
}

/// A mutation's `jj` command: the arguments `args`, the context `context`
/// for its failure, run with `--ignore-working-copy` so that the working
/// copy is not snapshotted.
pub open spec fn mutation_command(args: Seq<Seq<char>>, context: Seq<char>) -> CommandModel {
    CommandModel { args, context, ignore_working_copy: true }
}

/// The mutation ends with a precondition error carrying `message`.
pub open spec fn refuse(message: Seq<char>) -> VerdictModel {
    VerdictModel::Stop { outcome: OutcomeModel::PreconditionError { message } }
}

/// The mutation runs the single command `args`, with `context` for its
/// failure, and reports `report` when the repository changed.
pub open spec fn run_one(args: Seq<Seq<char>>, context: Seq<char>, report: Report) -> VerdictModel {
    VerdictModel::Run { commands: seq![mutation_command(args, context)], report }
}

/// The error of a reference that should be a bookmark but is the tag `name`.
pub open spec fn not_a_bookmark(name: Seq<char>) -> VerdictModel {
    VerdictModel::Stop {
        outcome: OutcomeModel::Failed { context: None, cause: name + " is not a bookmark"@ },
    }
}

/// The message refusing to change the revision with change prefix `prefix`
/// because it is immutable.
pub open spec fn immutable_revision(prefix: Seq<char>) -> Seq<char> {
    "Revision "@ + prefix + " is immutable"@
}

fn no_args() -> (v: Vec<String>)
    ensures
        strings_model(v@) == Seq::<Seq<char>>::empty(),
{
    let v: Vec<String> = Vec::new();
    assert(strings_model(v@) =~= Seq::<Seq<char>>::empty());
    v
}

fn push_string(v: &mut Vec<String>, s: String)
    ensures
        strings_model(final(v)@) == strings_model(old(v)@).push(s@),
{
    let ghost before = v@;
    v.push(s);
    assert(strings_model(v@) =~= strings_model(before).push(s@));
}

fn push_literal(v: &mut Vec<String>, s: &str)
    ensures
        strings_model(final(v)@) == strings_model(old(v)@).push(s@),
{
    push_string(v, owned(s));
}

fn push_rev_hexes(v: &mut Vec<String>, ids: &Vec<RevId>)
    ensures
        strings_model(final(v)@) == strings_model(old(v)@) + rev_hexes(ids@),
{
    let ghost start = strings_model(v@);
    let mut i: usize = 0;
    while i < ids.len()
        invariant
            i <= ids.len(),
            strings_model(v@) == start + rev_hexes(ids@.take(i as int)),
        decreases ids.len() - i,
    {
        push_string(v, ids[i].commit.hex.clone());
        assert(rev_hexes(ids@.take(i as int + 1)) =~= rev_hexes(ids@.take(i as int)).push(
            ids@[i as int].commit.hex@,
        ));
        i = i + 1;
    }
    assert(ids@.take(ids.len() as int) =~= ids@);
}

fn push_paths(v: &mut Vec<String>, paths: &Vec<TreePath>)
    ensures
        strings_model(final(v)@) == strings_model(old(v)@) + path_strings(paths@),
{
    let ghost start = strings_model(v@);
    let mut i: usize = 0;
    while i < paths.len()
        invariant
            i <= paths.len(),
            strings_model(v@) == start + path_strings(paths@.take(i as int)),
        decreases paths.len() - i,
    {
        push_string(v, paths[i].repo_path.clone());
        assert(path_strings(paths@.take(i as int + 1)) =~= path_strings(paths@.take(i as int)).push(
            paths@[i as int].repo_path@,
        ));
        i = i + 1;
    }
    assert(paths@.take(paths.len() as int) =~= paths@);
}

fn push_rev_destinations(v: &mut Vec<String>, ids: &Vec<RevId>)
    ensures
        strings_model(final(v)@) == strings_model(old(v)@) + destination_args(rev_hexes(ids@)),
{
    let ghost start = strings_model(v@);
    let mut i: usize = 0;
    while i < ids.len()
        invariant
            i <= ids.len(),
            strings_model(v@) == start + destination_args(rev_hexes(ids@.take(i as int))),
        decreases ids.len() - i,
    {
        push_literal(v, "-d");
        push_string(v, ids[i].commit.hex.clone());
        let ghost hexes = rev_hexes(ids@.take(i as int + 1));
        assert(hexes.drop_last() =~= rev_hexes(ids@.take(i as int)));
        assert(hexes.last() == ids@[i as int].commit.hex@);
        i = i + 1;
    }
    assert(ids@.take(ids.len() as int) =~= ids@);
}

fn push_commit_destinations(v: &mut Vec<String>, ids: &Vec<CommitId>)
    ensures
        strings_model(final(v)@) == strings_model(old(v)@) + destination_args(commit_hexes(ids@)),
{
    let ghost start = strings_model(v@);
    let mut i: usize = 0;
    while i < ids.len()
        invariant
            i <= ids.len(),
            strings_model(v@) == start + destination_args(commit_hexes(ids@.take(i as int))),
        decreases ids.len() - i,
    {
        push_literal(v, "-d");
        push_string(v, ids[i].hex.clone());
        let ghost hexes = commit_hexes(ids@.take(i as int + 1));
        assert(hexes.drop_last() =~= commit_hexes(ids@.take(i as int)));
        assert(hexes.last() == ids@[i as int].hex@);
        i = i + 1;
    }
    assert(ids@.take(ids.len() as int) =~= ids@);
}

/// `branch@remote`.
fn remote_bookmark_name(branch: &String, remote: &str) -> (name: String)
    ensures
        name@ == remote_bookmark(branch@, remote@),
{
    let mut name = branch.clone();
    name.append("@");
    name.append(remote);
    name
}

/// `remote@branch`.
fn tracking_ref_name(remote: &String, branch: &str) -> (name: String)
    ensures
        name@ == tracking_ref(remote@, branch@),
{
    let mut name = remote.clone();
    name.append("@");
    name.append(branch);
    name
}

/// The command `args` with context `context`, run without touching the
/// working copy.
fn mutation_command_of(args: Vec<String>, context: &str) -> (c: Command)
    ensures
        c@ == mutation_command(strings_model(args@), context@),
{
    Command { args, context: owned(context), ignore_working_copy: true }
}

/// `prefix` followed by `suffix`.
fn suffixed(prefix: &String, suffix: &str) -> (s: String)
    ensures
        s@ == prefix@ + suffix@,
{
    let mut s = prefix.clone();
    s.append(suffix);
    s
}

fn immutable_revision_message(prefix: &String) -> (m: String)
    ensures
        m@ == immutable_revision(prefix@),
{
    let mut m = owned("Revision ");
    m.append(prefix.as_str());
    m.append(" is immutable");
    m
}

fn refusal(message: String) -> (v: Verdict)
    ensures
        v@ == refuse(message@),
{
    Verdict::Stop { outcome: Outcome::PreconditionError { message } }
}

fn single_command(args: Vec<String>, context: &str, report: Report) -> (v: Verdict)
    ensures
        v@ == run_one(strings_model(args@), context@, report),
{
    let mut commands: Vec<Command> = Vec::new();
    let ghost model = strings_model(args@);
    commands.push(mutation_command_of(args, context));
    let v = Verdict::Run { commands, report };
    assert(v@->Run_commands =~= seq![mutation_command(model, context@)]);
    v
}

fn bookmark_error(tag_name: &String) -> (v: Verdict)
    ensures
        v@ == not_a_bookmark(tag_name@),
{
    Verdict::Stop {
        outcome: Outcome::Failed { context: None, cause: suffixed(tag_name, " is not a bookmark") },
    }
}

fn no_checks() -> (checks: Vec<Check>)
    ensures
        checks@.map_values(|c: Check| c@) == Seq::<CheckModel>::empty(),
{
    let checks: Vec<Check> = Vec::new();
    assert(checks@.map_values(|c: Check| c@) =~= Seq::<CheckModel>::empty());
    checks
}

fn push_check(checks: &mut Vec<Check>, check: Check)
    ensures
        final(checks)@.map_values(|c: Check| c@) == old(checks)@.map_values(|c: Check| c@).push(
            check@,
        ),
{
    let ghost before = checks@;
    checks.push(check);
    assert(checks@.map_values(|c: Check| c@) =~= before.map_values(|c: Check| c@).push(check@));
}

/// The plan `checks` then `verdict`.
fn plan_of(checks: Vec<Check>, verdict: Verdict) -> (plan: Plan)
    ensures
        plan@ == (PlanModel { checks: checks@.map_values(|c: Check| c@), verdict: verdict@ }),
{
    Plan { checks, verdict }
}

impl AbandonRevisions {
    /// `jj abandon <revset>`, refused when the revset holds an immutable
    /// revision.
    pub open spec fn planned(&self) -> PlanModel {
        PlanModel {
            checks: seq![
                CheckModel::ImmutableRevset {
                    revset: self.revset@,
                    message: "Cannot abandon immutable revision"@,
                },
            ],
            verdict: run_one(
                seq!["abandon"@, self.revset@],
                "Failed to abandon revisions via CLI"@,
                Report::Status,
            ),
        }
    }

    /// The plan of this mutation.
    pub fn cli_plan(&self) -> (plan: Plan)
        ensures
            plan@ == self.planned(),
            plan_well_formed(plan@),
    {
        let mut checks = no_checks();
        push_check(
            &mut checks,
            Check::ImmutableRevset {
                revset: self.revset.clone(),
                message: owned("Cannot abandon immutable revision"),
            },
        );
        let mut args = no_args();
        push_literal(&mut args, "abandon");
        push_string(&mut args, self.revset.clone());
        let plan = plan_of(checks, single_command(args, "Failed to abandon revisions via CLI", Report::Status));
        assert(plan@ =~~= self.planned());
        plan
    }

    /// The next step after the replies `replies`.
    pub fn execute_cli(&self, replies: &Vec<Reply>) -> (step: Step)
        ensures
            step@ == next_step(self.planned(), replies_model(replies@)),
    {
        self.cli_plan().next_step(replies)
    }
}


impl DescribeRevision {
    /// `jj describe -m <description> <commit>`, refused when the revision is
    /// immutable, and nothing done when the description is already the new
    /// one and the author is not to be reset.
    pub open spec fn planned(&self) -> PlanModel {
        PlanModel {
            checks: seq![
                CheckModel::ResolveChange { rev: self.id@ },
                CheckModel::Immutable { message: immutable_revision(self.id.change.prefix@) },
                CheckModel::SameDescription {
                    description: self.new_description@,
                    reset_author: self.reset_author,
                },
            ],
            verdict: run_one(
                seq!["describe"@, "-m"@, self.new_description@, self.id.commit.hex@],
                "Failed to describe revision via CLI"@,
                Report::Status,
            ),
        }
    }

    /// The plan of this mutation.
    pub fn cli_plan(&self) -> (plan: Plan)
        ensures
            plan@ == self.planned(),
            plan_well_formed(plan@),
    {
        let mut checks = no_checks();
        push_check(&mut checks, Check::ResolveChange { rev: self.id.duplicate() });
        push_check(
            &mut checks,
            Check::Immutable { message: immutable_revision_message(&self.id.change.prefix) },
        );
        push_check(
            &mut checks,
            Check::SameDescription {
                description: self.new_description.clone(),
                reset_author: self.reset_author,
            },
        );
        let mut args = no_args();
        push_literal(&mut args, "describe");
        push_literal(&mut args, "-m");
        push_string(&mut args, self.new_description.clone());
        push_string(&mut args, self.id.commit.hex.clone());
        let plan = plan_of(
            checks,
            single_command(args, "Failed to describe revision via CLI", Report::Status),
        );
        assert(plan@ =~~= self.planned());
        plan
    }

    /// The next step after the replies `replies`.
    pub fn execute_cli(&self, replies: &Vec<Reply>) -> (step: Step)
        ensures
            step@ == next_step(self.planned(), replies_model(replies@)),
    {
        self.cli_plan().next_step(replies)
    }
}

impl DuplicateRevisions {
    /// `jj duplicate <commits>`.
    pub open spec fn planned(&self) -> PlanModel {
        PlanModel {
            checks: Seq::empty(),
            verdict: run_one(
                seq!["duplicate"@] + rev_hexes(self.ids@),
                "Failed to duplicate revisions via CLI"@,
                Report::Status,
            ),
        }
    }

    /// The plan of this mutation.
    pub fn cli_plan(&self) -> (plan: Plan)
        ensures
            plan@ == self.planned(),
            plan_well_formed(plan@),
    {
        let mut args = no_args();
        push_literal(&mut args, "duplicate");
        push_rev_hexes(&mut args, &self.ids);
        let plan = plan_of(
            no_checks(),
            single_command(args, "Failed to duplicate revisions via CLI", Report::Status),
        );
        assert(plan@ =~~= self.planned());
        plan
    }

    /// The next step after the replies `replies`.
    pub fn execute_cli(&self, replies: &Vec<Reply>) -> (step: Step)
        ensures
            step@ == next_step(self.planned(), replies_model(replies@)),
    {
        self.cli_plan().next_step(replies)
    }
}

impl CheckoutRevision {
    /// `jj edit <commit>`, refused when the revision is immutable, nothing
    /// done when it already is the working copy; reports the revision's
    /// header as the new selection.
    pub open spec fn planned(&self) -> PlanModel {
        PlanModel {
            checks: seq![
                CheckModel::ResolveChange { rev: self.id@ },
                CheckModel::Immutable { message: "Revision is immutable"@ },
                CheckModel::IsWorkingCopy,
            ],
            verdict: run_one(
                seq!["edit"@, self.id.commit.hex@],
                "Failed to checkout revision via CLI"@,
                Report::ResolvedSelection,
            ),
        }
    }

    /// The plan of this mutation.
    pub fn cli_plan(&self) -> (plan: Plan)
        ensures
            plan@ == self.planned(),
            plan_well_formed(plan@),
    {
        let mut checks = no_checks();
        push_check(&mut checks, Check::ResolveChange { rev: self.id.duplicate() });
        push_check(&mut checks, Check::Immutable { message: owned("Revision is immutable") });
        push_check(&mut checks, Check::IsWorkingCopy);
        let mut args = no_args();
        push_literal(&mut args, "edit");
        push_string(&mut args, self.id.commit.hex.clone());
        let plan = plan_of(
            checks,
            single_command(args, "Failed to checkout revision via CLI", Report::ResolvedSelection),
        );
        assert(plan@ =~~= self.planned());
        plan
    }

    /// The next step after the replies `replies`.
    pub fn execute_cli(&self, replies: &Vec<Reply>) -> (step: Step)
        ensures
            step@ == next_step(self.planned(), replies_model(replies@)),
    {
        self.cli_plan().next_step(replies)
    }
}

impl CreateRevision {
    /// `jj new <parents>`; reports the new working-copy commit's header as
    /// the new selection.
    pub open spec fn planned(&self) -> PlanModel {
        PlanModel {
            checks: Seq::empty(),
            verdict: run_one(
                seq!["new"@] + rev_hexes(self.parent_ids@),
                "Failed to create new revision via CLI"@,
                Report::WorkingCopySelection { header_flag: Some(false) },
            ),
        }
    }

    /// The plan of this mutation.
    pub fn cli_plan(&self) -> (plan: Plan)
        ensures
            plan@ == self.planned(),
            plan_well_formed(plan@),
    {
        let mut args = no_args();
        push_literal(&mut args, "new");
        push_rev_hexes(&mut args, &self.parent_ids);
        let plan = plan_of(
            no_checks(),
            single_command(
                args,
                "Failed to create new revision via CLI",
                Report::WorkingCopySelection { header_flag: Some(false) },
            ),
        );
        assert(plan@ =~~= self.planned());
        plan
    }

    /// The next step after the replies `replies`.
    pub fn execute_cli(&self, replies: &Vec<Reply>) -> (step: Step)
        ensures
            step@ == next_step(self.planned(), replies_model(replies@)),
    {
        self.cli_plan().next_step(replies)
    }
}

impl UndoOperation {
    /// `jj operation undo`; reports the working-copy commit's header as the
    /// new selection.
    pub open spec fn planned(&self) -> PlanModel {
        PlanModel {
            checks: Seq::empty(),
            verdict: run_one(
                seq!["operation"@, "undo"@],
                "Failed to undo operation via CLI"@,
                Report::WorkingCopySelection { header_flag: None },
            ),
        }
    }

    /// The plan of this mutation.
    pub fn cli_plan(&self) -> (plan: Plan)
        ensures
            plan@ == self.planned(),
            plan_well_formed(plan@),
    {
        let mut args = no_args();
        push_literal(&mut args, "operation");
        push_literal(&mut args, "undo");
        let plan = plan_of(
            no_checks(),
            single_command(
                args,
                "Failed to undo operation via CLI",
                Report::WorkingCopySelection { header_flag: None },
            ),
        );
        assert(plan@ =~~= self.planned());
        plan
    }

    /// The next step after the replies `replies`.
    pub fn execute_cli(&self, replies: &Vec<Reply>) -> (step: Step)
        ensures
            step@ == next_step(self.planned(), replies_model(replies@)),
    {
        self.cli_plan().next_step(replies)
    }
}

impl TrackBranch {
    /// `jj bookmark track <remote>@<bookmark>` for a remote bookmark; a tag
    /// or a local bookmark cannot be tracked.
    pub open spec fn planned(&self) -> PlanModel {
        PlanModel {
            checks: Seq::empty(),
            verdict: match self.store_ref {
                StoreRef::Tag { tag_name } => refuse(
                    tag_name@ + " is a tag and cannot be tracked"@,
                ),
                StoreRef::LocalBookmark { branch_name } => refuse(
                    branch_name@ + " is a local bookmark and cannot be tracked"@,
                ),
                StoreRef::RemoteBookmark { branch_name, remote_name } => run_one(
                    seq!["bookmark"@, "track"@, tracking_ref(remote_name@, branch_name@)],
                    "Failed to track branch via CLI"@,
                    Report::Status,
                ),
            },
        }
    }

    /// The plan of this mutation.
    pub fn cli_plan(&self) -> (plan: Plan)
        ensures
            plan@ == self.planned(),
            plan_well_formed(plan@),
    {
        let verdict = match &self.store_ref {
            StoreRef::Tag { tag_name } => refusal(
                suffixed(tag_name, " is a tag and cannot be tracked"),
            ),
            StoreRef::LocalBookmark { branch_name } => refusal(
                suffixed(branch_name, " is a local bookmark and cannot be tracked"),
            ),
            StoreRef::RemoteBookmark { branch_name, remote_name } => {
                let mut args = no_args();
                push_literal(&mut args, "bookmark");
                push_literal(&mut args, "track");
                push_string(&mut args, tracking_ref_name(remote_name, branch_name.as_str()));
                single_command(args, "Failed to track branch via CLI", Report::Status)
            },
        };
        let plan = plan_of(no_checks(), verdict);
        assert(plan@ =~~= self.planned());
        plan
    }

    /// The next step after the replies `replies`.
    pub fn execute_cli(&self, replies: &Vec<Reply>) -> (step: Step)
        ensures
            step@ == next_step(self.planned(), replies_model(replies@)),
    {
        self.cli_plan().next_step(replies)
    }
}

impl UntrackBranch {
    /// `jj bookmark untrack <remote>@<bookmark>` for a remote bookmark, and
    /// `jj bookmark untrack <bookmark>@*` (every remote) for a local one; a
    /// tag cannot be untracked.
    pub open spec fn planned(&self) -> PlanModel {
        PlanModel {
            checks: Seq::empty(),
            verdict: match self.store_ref {
                StoreRef::Tag { tag_name } => refuse(
                    tag_name@ + " is a tag and cannot be untracked"@,
                ),
                StoreRef::LocalBookmark { branch_name } => run_one(
                    seq!["bookmark"@, "untrack"@, branch_name@ + "@*"@],
                    "Failed to untrack branch via CLI"@,
                    Report::Status,
                ),
                StoreRef::RemoteBookmark { branch_name, remote_name } => run_one(
                    seq!["bookmark"@, "untrack"@, tracking_ref(remote_name@, branch_name@)],
                    "Failed to untrack branch via CLI"@,
                    Report::Status,
                ),
            },
        }
    }

    /// The plan of this mutation.
    pub fn cli_plan(&self) -> (plan: Plan)
        ensures
            plan@ == self.planned(),
            plan_well_formed(plan@),
    {
        let verdict = match &self.store_ref {
            StoreRef::Tag { tag_name } => refusal(
                suffixed(tag_name, " is a tag and cannot be untracked"),
            ),
            StoreRef::LocalBookmark { branch_name } => {
                let mut args = no_args();
                push_literal(&mut args, "bookmark");
                push_literal(&mut args, "untrack");
                push_string(&mut args, suffixed(branch_name, "@*"));
                single_command(args, "Failed to untrack branch via CLI", Report::Status)
            },
            StoreRef::RemoteBookmark { branch_name, remote_name } => {
                let mut args = no_args();
                push_literal(&mut args, "bookmark");
                push_literal(&mut args, "untrack");
                push_string(&mut args, tracking_ref_name(remote_name, branch_name.as_str()));
                single_command(args, "Failed to untrack branch via CLI", Report::Status)
            },
        };
        let plan = plan_of(no_checks(), verdict);
        assert(plan@ =~~= self.planned());
        plan
    }

    /// The next step after the replies `replies`.
    pub fn execute_cli(&self, replies: &Vec<Reply>) -> (step: Step)
        ensures
            step@ == next_step(self.planned(), replies_model(replies@)),
    {
        self.cli_plan().next_step(replies)
    }
}


fn two_commands(
    first: Vec<String>,
    first_context: &str,
    second: Vec<String>,
    second_context: &str,
    report: Report,
) -> (v: Verdict)
    ensures
        v@ == (VerdictModel::Run {
            commands: seq![
                mutation_command(strings_model(first@), first_context@),
                mutation_command(strings_model(second@), second_context@),
            ],
            report,
        }),
{
    let mut commands: Vec<Command> = Vec::new();
    let ghost first_model = strings_model(first@);
    let ghost second_model = strings_model(second@);
    commands.push(mutation_command_of(first, first_context));
    commands.push(mutation_command_of(second, second_context));
    let v = Verdict::Run { commands, report };
    assert(v@->Run_commands =~= seq![
        mutation_command(first_model, first_context@),
        mutation_command(second_model, second_context@),
    ]);
    v
}

/// `[kind, "create", name, "-r", hex]`.
fn create_args(kind: &str, name: &String, hex: &String) -> (args: Vec<String>)
    ensures
        strings_model(args@) == seq![kind@, "create"@, name@, "-r"@, hex@],
{
    let mut args = no_args();
    push_literal(&mut args, kind);
    push_literal(&mut args, "create");
    push_string(&mut args, name.clone());
    push_literal(&mut args, "-r");
    push_string(&mut args, hex.clone());
    args
}

/// `[kind, verb, name]`.
fn ref_args(kind: &str, verb: &str, name: String) -> (args: Vec<String>)
    ensures
        strings_model(args@) == seq![kind@, verb@, name@],
{
    let mut args = no_args();
    push_literal(&mut args, kind);
    push_literal(&mut args, verb);
    push_string(&mut args, name);
    args
}

impl CreateRef {
    /// After the revision is resolved: `jj bookmark create <name> -r <commit>`
    /// for a local bookmark, `jj tag create <name> -r <commit>` for a tag; a
    /// remote bookmark cannot be created.
    pub open spec fn planned(&self) -> PlanModel {
        PlanModel {
            checks: seq![CheckModel::ResolveChange { rev: self.id@ }],
            verdict: match self.store_ref {
                StoreRef::RemoteBookmark { branch_name, remote_name } => refuse(
                    remote_bookmark(branch_name@, remote_name@)
                        + " is a remote bookmark and cannot be created"@,
                ),
                StoreRef::LocalBookmark { branch_name } => run_one(
                    seq!["bookmark"@, "create"@, branch_name@, "-r"@, self.id.commit.hex@],
                    "Failed to create bookmark via CLI"@,
                    Report::Status,
                ),
                StoreRef::Tag { tag_name } => run_one(
                    seq!["tag"@, "create"@, tag_name@, "-r"@, self.id.commit.hex@],
                    "Failed to create tag via CLI"@,
                    Report::Status,
                ),
            },
        }
    }

    /// The plan of this mutation.
    pub fn cli_plan(&self) -> (plan: Plan)
        ensures
            plan@ == self.planned(),
            plan_well_formed(plan@),
    {
        let mut checks = no_checks();
        push_check(&mut checks, Check::ResolveChange { rev: self.id.duplicate() });
        let verdict = match &self.store_ref {
            StoreRef::RemoteBookmark { branch_name, remote_name } => {
                let name = remote_bookmark_name(branch_name, remote_name.as_str());
                refusal(suffixed(&name, " is a remote bookmark and cannot be created"))
            },
            StoreRef::LocalBookmark { branch_name } => single_command(
                create_args("bookmark", branch_name, &self.id.commit.hex),
                "Failed to create bookmark via CLI",
                Report::Status,
            ),
            StoreRef::Tag { tag_name } => single_command(
                create_args("tag", tag_name, &self.id.commit.hex),
                "Failed to create tag via CLI",
                Report::Status,
            ),
        };
        let plan = plan_of(checks, verdict);
        assert(plan@ =~~= self.planned());
        plan
    }

    /// The next step after the replies `replies`.
    pub fn execute_cli(&self, replies: &Vec<Reply>) -> (step: Step)
        ensures
            step@ == next_step(self.planned(), replies_model(replies@)),
    {
        self.cli_plan().next_step(replies)
    }
}

impl DeleteRef {
    /// `jj bookmark forget <bookmark>@<remote>` for a remote bookmark,
    /// `jj bookmark delete <name>` for a local one, `jj tag delete <name>`
    /// for a tag.
    pub open spec fn planned(&self) -> PlanModel {
        PlanModel {
            checks: Seq::empty(),
            verdict: match self.store_ref {
                StoreRef::RemoteBookmark { branch_name, remote_name } => run_one(
                    seq!["bookmark"@, "forget"@, remote_bookmark(branch_name@, remote_name@)],
                    "Failed to delete remote bookmark via CLI"@,
                    Report::Status,
                ),
                StoreRef::LocalBookmark { branch_name } => run_one(
                    seq!["bookmark"@, "delete"@, branch_name@],
                    "Failed to delete bookmark via CLI"@,
                    Report::Status,
                ),
                StoreRef::Tag { tag_name } => run_one(
                    seq!["tag"@, "delete"@, tag_name@],
                    "Failed to delete tag via CLI"@,
                    Report::Status,
                ),
            },
        }
    }

    /// The plan of this mutation.
    pub fn cli_plan(&self) -> (plan: Plan)
        ensures
            plan@ == self.planned(),
            plan_well_formed(plan@),
    {
        let verdict = match &self.store_ref {
            StoreRef::RemoteBookmark { branch_name, remote_name } => single_command(
                ref_args("bookmark", "forget", remote_bookmark_name(branch_name, remote_name.as_str())),
                "Failed to delete remote bookmark via CLI",
                Report::Status,
            ),
            StoreRef::LocalBookmark { branch_name } => single_command(
                ref_args("bookmark", "delete", branch_name.clone()),
                "Failed to delete bookmark via CLI",
                Report::Status,
            ),
            StoreRef::Tag { tag_name } => single_command(
                ref_args("tag", "delete", tag_name.clone()),
                "Failed to delete tag via CLI",
                Report::Status,
            ),
        };
        let plan = plan_of(no_checks(), verdict);
        assert(plan@ =~~= self.planned());
        plan
    }

    /// The next step after the replies `replies`.
    pub fn execute_cli(&self, replies: &Vec<Reply>) -> (step: Step)
        ensures
            step@ == next_step(self.planned(), replies_model(replies@)),
    {
        self.cli_plan().next_step(replies)
    }
}

impl MoveRef {
    /// After the target revision is resolved: `jj bookmark set <name> -r
    /// <commit> --allow-backwards` for a local bookmark; for a tag, `jj tag
    /// delete <name>` then `jj tag create <name> -r <commit>`; a remote
    /// bookmark cannot be moved.
    pub open spec fn planned(&self) -> PlanModel {
        PlanModel {
            checks: seq![CheckModel::ResolveChange { rev: self.to_id@ }],
            verdict: match self.store_ref {
                StoreRef::RemoteBookmark { branch_name, remote_name } => refuse(
                    remote_bookmark(branch_name@, remote_name@)
                        + " is a remote bookmark and cannot be moved"@,
                ),
                StoreRef::LocalBookmark { branch_name } => run_one(
                    seq![
                        "bookmark"@,
                        "set"@,
                        branch_name@,
                        "-r"@,
                        self.to_id.commit.hex@,
                        "--allow-backwards"@,
                    ],
                    "Failed to move bookmark via CLI"@,
                    Report::Status,
                ),
                StoreRef::Tag { tag_name } => VerdictModel::Run {
                    commands: seq![
                        mutation_command(
                            seq!["tag"@, "delete"@, tag_name@],
                            "Failed to delete tag via CLI"@,
                        ),
                        mutation_command(
                            seq!["tag"@, "create"@, tag_name@, "-r"@, self.to_id.commit.hex@],
                            "Failed to recreate tag via CLI"@,
                        ),
                    ],
                    report: Report::Status,
                },
            },
        }
    }

    /// The plan of this mutation.
    pub fn cli_plan(&self) -> (plan: Plan)
        ensures
            plan@ == self.planned(),
            plan_well_formed(plan@),
    {
        let mut checks = no_checks();
        push_check(&mut checks, Check::ResolveChange { rev: self.to_id.duplicate() });
        let verdict = match &self.store_ref {
            StoreRef::RemoteBookmark { branch_name, remote_name } => {
                let name = remote_bookmark_name(branch_name, remote_name.as_str());
                refusal(suffixed(&name, " is a remote bookmark and cannot be moved"))
            },
            StoreRef::LocalBookmark { branch_name } => {
                let mut args = no_args();
                push_literal(&mut args, "bookmark");
                push_literal(&mut args, "set");
                push_string(&mut args, branch_name.clone());
                push_literal(&mut args, "-r");
                push_string(&mut args, self.to_id.commit.hex.clone());
                push_literal(&mut args, "--allow-backwards");
                single_command(args, "Failed to move bookmark via CLI", Report::Status)
            },
            StoreRef::Tag { tag_name } => two_commands(
                ref_args("tag", "delete", tag_name.clone()),
                "Failed to delete tag via CLI",
                create_args("tag", tag_name, &self.to_id.commit.hex),
                "Failed to recreate tag via CLI",
                Report::Status,
            ),
        };
        let plan = plan_of(checks, verdict);
        assert(plan@ =~~= self.planned());
        plan
    }

    /// The next step after the replies `replies`.
    pub fn execute_cli(&self, replies: &Vec<Reply>) -> (step: Step)
        ensures
            step@ == next_step(self.planned(), replies_model(replies@)),
    {
        self.cli_plan().next_step(replies)
    }
}

/// The arguments that select a bookmark to fetch, or the error of a tag.
pub open spec fn fetch_verdict(prefix: Seq<Seq<char>>, branch_ref: StoreRef) -> VerdictModel {
    match branch_ref {
        StoreRef::Tag { tag_name } => not_a_bookmark(tag_name@),
        StoreRef::LocalBookmark { branch_name } => run_one(
            prefix + seq!["--branch"@, branch_name@],
            "Failed to fetch from git remote via CLI"@,
            Report::Status,
        ),
        StoreRef::RemoteBookmark { branch_name, .. } => run_one(
            prefix + seq!["--branch"@, branch_name@],
            "Failed to fetch from git remote via CLI"@,
            Report::Status,
        ),
    }
}

/// `args` followed by `--branch <bookmark>` as the fetch command, or the
/// error of a tag.
fn fetch_branch(prefix: Vec<String>, branch_ref: &StoreRef) -> (v: Verdict)
    ensures
        v@ == fetch_verdict(strings_model(prefix@), *branch_ref),
{
    match branch_ref {
        StoreRef::Tag { tag_name } => bookmark_error(tag_name),
        StoreRef::LocalBookmark { branch_name } | StoreRef::RemoteBookmark { branch_name, .. } => {
            let mut args = prefix;
            push_literal(&mut args, "--branch");
            push_string(&mut args, branch_name.clone());
            let v = single_command(args, "Failed to fetch from git remote via CLI", Report::Status);
            assert(v@ =~~= fetch_verdict(strings_model(prefix@), *branch_ref));
            v
        },
    }
}

impl GitFetch {
    /// `jj git fetch` with `--remote <remote>` when one remote is named and
    /// `--branch <bookmark>` when one bookmark is; a tag given as the
    /// bookmark is an error.
    pub open spec fn planned(&self) -> PlanModel {
        PlanModel {
            checks: Seq::empty(),
            verdict: match self {
                GitFetch::AllBookmarks { remote_name } => run_one(
                    seq!["git"@, "fetch"@, "--remote"@, remote_name@],
                    "Failed to fetch from git remote via CLI"@,
                    Report::Status,
                ),
                GitFetch::AllRemotes { branch_ref } => fetch_verdict(
                    seq!["git"@, "fetch"@],
                    *branch_ref,
                ),
                GitFetch::RemoteBookmark { remote_name, branch_ref } => fetch_verdict(
                    seq!["git"@, "fetch"@, "--remote"@, remote_name@],
                    *branch_ref,
                ),
            },
        }
    }

    /// The plan of this mutation.
    pub fn cli_plan(&self) -> (plan: Plan)
        ensures
            plan@ == self.planned(),
            plan_well_formed(plan@),
    {
        let mut args = no_args();
        push_literal(&mut args, "git");
        push_literal(&mut args, "fetch");
        let verdict = match self {
            GitFetch::AllBookmarks { remote_name } => {
                push_literal(&mut args, "--remote");
                push_string(&mut args, remote_name.clone());
                single_command(args, "Failed to fetch from git remote via CLI", Report::Status)
            },
            GitFetch::AllRemotes { branch_ref } => fetch_branch(args, branch_ref),
            GitFetch::RemoteBookmark { remote_name, branch_ref } => {
                push_literal(&mut args, "--remote");
                push_string(&mut args, remote_name.clone());
                fetch_branch(args, branch_ref)
            },
        };
        let plan = plan_of(no_checks(), verdict);
        assert(plan@ =~~= self.planned());
        plan
    }

    /// The next step after the replies `replies`.
    pub fn execute_cli(&self, replies: &Vec<Reply>) -> (step: Step)
        ensures
            step@ == next_step(self.planned(), replies_model(replies@)),
    {
        self.cli_plan().next_step(replies)
    }
}


impl MoveRevisions {
    /// `jj rebase -r <revset>` with `-d <commit>` for each new parent,
    /// refused when the revset holds an immutable revision.
    pub open spec fn planned(&self) -> PlanModel {
        PlanModel {
            checks: seq![
                CheckModel::ImmutableRevset {
                    revset: self.revset@,
                    message: "Cannot move immutable revision"@,
                },
            ],
            verdict: run_one(
                seq!["rebase"@, "-r"@, self.revset@] + destination_args(rev_hexes(self.parent_ids@)),
                "Failed to rebase revision via CLI"@,
                Report::Status,
            ),
        }
    }

    /// The plan of this mutation.
    pub fn cli_plan(&self) -> (plan: Plan)
        ensures
            plan@ == self.planned(),
            plan_well_formed(plan@),
    {
        let mut checks = no_checks();
        push_check(
            &mut checks,
            Check::ImmutableRevset {
                revset: self.revset.clone(),
                message: owned("Cannot move immutable revision"),
            },
        );
        let mut args = no_args();
        push_literal(&mut args, "rebase");
        push_literal(&mut args, "-r");
        push_string(&mut args, self.revset.clone());
        push_rev_destinations(&mut args, &self.parent_ids);
        let plan = plan_of(
            checks,
            single_command(args, "Failed to rebase revision via CLI", Report::Status),
        );
        assert(plan@ =~~= self.planned());
        plan
    }

    /// The next step after the replies `replies`.
    pub fn execute_cli(&self, replies: &Vec<Reply>) -> (step: Step)
        ensures
            step@ == next_step(self.planned(), replies_model(replies@)),
    {
        self.cli_plan().next_step(replies)
    }
}

impl MoveSource {
    /// `jj rebase -s <commit>` with `-d <commit>` for each new parent,
    /// refused when the revision is immutable.
    pub open spec fn planned(&self) -> PlanModel {
        PlanModel {
            checks: seq![
                CheckModel::ResolveChange { rev: self.id@ },
                CheckModel::Immutable { message: immutable_revision(self.id.change.prefix@) },
            ],
            verdict: run_one(
                seq!["rebase"@, "-s"@, self.id.commit.hex@] + destination_args(
                    commit_hexes(self.parent_ids@),
                ),
                "Failed to rebase source via CLI"@,
                Report::Status,
            ),
        }
    }

    /// The plan of this mutation.
    pub fn cli_plan(&self) -> (plan: Plan)
        ensures
            plan@ == self.planned(),
            plan_well_formed(plan@),
    {
        let mut checks = no_checks();
        push_check(&mut checks, Check::ResolveChange { rev: self.id.duplicate() });
        push_check(
            &mut checks,
            Check::Immutable { message: immutable_revision_message(&self.id.change.prefix) },
        );
        let mut args = no_args();
        push_literal(&mut args, "rebase");
        push_literal(&mut args, "-s");
        push_string(&mut args, self.id.commit.hex.clone());
        push_commit_destinations(&mut args, &self.parent_ids);
        let plan = plan_of(
            checks,
            single_command(args, "Failed to rebase source via CLI", Report::Status),
        );
        assert(plan@ =~~= self.planned());
        plan
    }

    /// The next step after the replies `replies`.
    pub fn execute_cli(&self, replies: &Vec<Reply>) -> (step: Step)
        ensures
            step@ == next_step(self.planned(), replies_model(replies@)),
    {
        self.cli_plan().next_step(replies)
    }
}

impl CopyChanges {
    /// `jj restore --from <commit> --into <commit> <paths>`, refused when the
    /// target revision is immutable.
    pub open spec fn planned(&self) -> PlanModel {
        PlanModel {
            checks: seq![
                CheckModel::ResolveChange { rev: self.to_id@ },
                CheckModel::Immutable { message: "Revisions are immutable"@ },
            ],
            verdict: run_one(
                seq!["restore"@, "--from"@, self.from_id.hex@, "--into"@, self.to_id.commit.hex@]
                    + path_strings(self.paths@),
                "Failed to restore changes via CLI"@,
                Report::Status,
            ),
        }
    }

    /// The plan of this mutation.
    pub fn cli_plan(&self) -> (plan: Plan)
        ensures
            plan@ == self.planned(),
            plan_well_formed(plan@),
    {
        let mut checks = no_checks();
        push_check(&mut checks, Check::ResolveChange { rev: self.to_id.duplicate() });
        push_check(&mut checks, Check::Immutable { message: owned("Revisions are immutable") });
        let mut args = no_args();
        push_literal(&mut args, "restore");
        push_literal(&mut args, "--from");
        push_string(&mut args, self.from_id.hex.clone());
        push_literal(&mut args, "--into");
        push_string(&mut args, self.to_id.commit.hex.clone());
        push_paths(&mut args, &self.paths);
        let plan = plan_of(
            checks,
            single_command(args, "Failed to restore changes via CLI", Report::Status),
        );
        assert(plan@ =~~= self.planned());
        plan
    }

    /// The next step after the replies `replies`.
    pub fn execute_cli(&self, replies: &Vec<Reply>) -> (step: Step)
        ensures
            step@ == next_step(self.planned(), replies_model(replies@)),
    {
        self.cli_plan().next_step(replies)
    }
}

impl MoveChanges {
    /// `jj squash --from <commit> --into <commit> <paths>`, refused when the
    /// target commit is immutable.
    pub open spec fn planned(&self) -> PlanModel {
        PlanModel {
            checks: seq![
                CheckModel::ResolveCommit { commit: self.to_id@ },
                CheckModel::Immutable { message: "Revisions are immutable"@ },
            ],
            verdict: run_one(
                seq!["squash"@, "--from"@, self.from_id.commit.hex@, "--into"@, self.to_id.hex@]
                    + path_strings(self.paths@),
                "Failed to squash changes via CLI"@,
                Report::Status,
            ),
        }
    }

    /// The plan of this mutation.
    pub fn cli_plan(&self) -> (plan: Plan)
        ensures
            plan@ == self.planned(),
            plan_well_formed(plan@),
    {
        let mut checks = no_checks();
        push_check(&mut checks, Check::ResolveCommit { commit: self.to_id.duplicate() });
        push_check(&mut checks, Check::Immutable { message: owned("Revisions are immutable") });
        let mut args = no_args();
        push_literal(&mut args, "squash");
        push_literal(&mut args, "--from");
        push_string(&mut args, self.from_id.commit.hex.clone());
        push_literal(&mut args, "--into");
        push_string(&mut args, self.to_id.hex.clone());
        push_paths(&mut args, &self.paths);
        let plan = plan_of(
            checks,
            single_command(args, "Failed to squash changes via CLI", Report::Status),
        );
        assert(plan@ =~~= self.planned());
        plan
    }

    /// The next step after the replies `replies`.
    pub fn execute_cli(&self, replies: &Vec<Reply>) -> (step: Step)
        ensures
            step@ == next_step(self.planned(), replies_model(replies@)),
    {
        self.cli_plan().next_step(replies)
    }
}

impl CreateRevisionBetween {
    /// `jj new --insert-after <commit> --insert-before <commit>`, refused
    /// when the revision before which it goes is immutable; reports the new
    /// working-copy commit's header as the new selection.
    pub open spec fn planned(&self) -> PlanModel {
        PlanModel {
            checks: seq![
                CheckModel::ResolveChange { rev: self.before_id@ },
                CheckModel::Immutable { message: "'Before' revision is immutable"@ },
            ],
            verdict: run_one(
                seq![
                    "new"@,
                    "--insert-after"@,
                    self.after_id.hex@,
                    "--insert-before"@,
                    self.before_id.commit.hex@,
                ],
                "Failed to create revision between via CLI"@,
                Report::WorkingCopySelection { header_flag: Some(false) },
            ),
        }
    }

    /// The plan of this mutation.
    pub fn cli_plan(&self) -> (plan: Plan)
        ensures
            plan@ == self.planned(),
            plan_well_formed(plan@),
    {
        let mut checks = no_checks();
        push_check(&mut checks, Check::ResolveChange { rev: self.before_id.duplicate() });
        push_check(
            &mut checks,
            Check::Immutable { message: owned("'Before' revision is immutable") },
        );
        let mut args = no_args();
        push_literal(&mut args, "new");
        push_literal(&mut args, "--insert-after");
        push_string(&mut args, self.after_id.hex.clone());
        push_literal(&mut args, "--insert-before");
        push_string(&mut args, self.before_id.commit.hex.clone());
        let plan = plan_of(
            checks,
            single_command(
                args,
                "Failed to create revision between via CLI",
                Report::WorkingCopySelection { header_flag: Some(false) },
            ),
        );
        assert(plan@ =~~= self.planned());
        plan
    }

    /// The next step after the replies `replies`.
    pub fn execute_cli(&self, replies: &Vec<Reply>) -> (step: Step)
        ensures
            step@ == next_step(self.planned(), replies_model(replies@)),
    {
        self.cli_plan().next_step(replies)
    }
}

impl RenameBranch {
    /// `jj bookmark rename <old> <new>`; a tag given as the bookmark is an
    /// error.
    pub open spec fn planned(&self) -> PlanModel {
        PlanModel {
            checks: Seq::empty(),
            verdict: match self.store_ref {
                StoreRef::Tag { tag_name } => not_a_bookmark(tag_name@),
                StoreRef::LocalBookmark { branch_name } => run_one(
                    seq!["bookmark"@, "rename"@, branch_name@, self.new_name@],
                    "Failed to rename bookmark via CLI"@,
                    Report::Status,
                ),
                StoreRef::RemoteBookmark { branch_name, .. } => run_one(
                    seq!["bookmark"@, "rename"@, branch_name@, self.new_name@],
                    "Failed to rename bookmark via CLI"@,
                    Report::Status,
                ),
            },
        }
    }

    /// The plan of this mutation.
    pub fn cli_plan(&self) -> (plan: Plan)
        ensures
            plan@ == self.planned(),
            plan_well_formed(plan@),
    {
        let verdict = match &self.store_ref {
            StoreRef::Tag { tag_name } => bookmark_error(tag_name),
            StoreRef::LocalBookmark { branch_name } | StoreRef::RemoteBookmark { branch_name, .. } => {
                let mut args = no_args();
                push_literal(&mut args, "bookmark");
                push_literal(&mut args, "rename");
                push_string(&mut args, branch_name.clone());
                push_string(&mut args, self.new_name.clone());
                single_command(args, "Failed to rename bookmark via CLI", Report::Status)
            },
        };
        let plan = plan_of(no_checks(), verdict);
        assert(plan@ =~~= self.planned());
        plan
    }

    /// The next step after the replies `replies`.
    pub fn execute_cli(&self, replies: &Vec<Reply>) -> (step: Step)
        ensures
            step@ == next_step(self.planned(), replies_model(replies@)),
    {
        self.cli_plan().next_step(replies)
    }
}

impl InsertRevisions {
    /// `jj rebase -r <revset> --insert-after <commit> --insert-before
    /// <commit>`, refused when the revision before which they go is
    /// immutable or the revset holds an immutable revision.
    pub open spec fn planned(&self) -> PlanModel {
        PlanModel {
            checks: seq![
                CheckModel::ResolveChange { rev: self.before_id@ },
                CheckModel::Immutable { message: "Cannot insert before immutable revision"@ },
                CheckModel::ImmutableRevset {
                    revset: self.revset@,
                    message: "Cannot move immutable revision"@,
                },
            ],
            verdict: run_one(
                seq![
                    "rebase"@,
                    "-r"@,
                    self.revset@,
                    "--insert-after"@,
                    self.after_id.commit.hex@,
                    "--insert-before"@,
                    self.before_id.commit.hex@,
                ],
                "Failed to insert revision via CLI"@,
                Report::Status,
            ),
        }
    }

    /// The plan of this mutation.
    pub fn cli_plan(&self) -> (plan: Plan)
        ensures
            plan@ == self.planned(),
            plan_well_formed(plan@),
    {
        let mut checks = no_checks();
        push_check(&mut checks, Check::ResolveChange { rev: self.before_id.duplicate() });
        push_check(
            &mut checks,
            Check::Immutable { message: owned("Cannot insert before immutable revision") },
        );
        push_check(
            &mut checks,
            Check::ImmutableRevset {
                revset: self.revset.clone(),
                message: owned("Cannot move immutable revision"),
            },
        );
        let mut args = no_args();
        push_literal(&mut args, "rebase");
        push_literal(&mut args, "-r");
        push_string(&mut args, self.revset.clone());
        push_literal(&mut args, "--insert-after");
        push_string(&mut args, self.after_id.commit.hex.clone());
        push_literal(&mut args, "--insert-before");
        push_string(&mut args, self.before_id.commit.hex.clone());
        let plan = plan_of(
            checks,
            single_command(args, "Failed to insert revision via CLI", Report::Status),
        );
        assert(plan@ =~~= self.planned());
        plan
    }

    /// The next step after the replies `replies`.
    pub fn execute_cli(&self, replies: &Vec<Reply>) -> (step: Step)
        ensures
            step@ == next_step(self.planned(), replies_model(replies@)),
    {
        self.cli_plan().next_step(replies)
    }
}

/// Whether `step` asks to run, without touching the working copy, a `jj`
/// command whose arguments are `args`.
pub open spec fn asks_to_run(step: StepModel, args: Seq<Seq<char>>) -> bool {
    step matches StepModel::Ask { request: RequestModel::Run { command } } && command.args == args
        && command.ignore_working_copy
}

/// Whether `step` ends the mutation refused with `message`.
pub open spec fn refused_with(step: StepModel, message: Seq<char>) -> bool {
    step == (StepModel::Done { outcome: OutcomeModel::PreconditionError { message } })
}

/// Whether `args` are `prefix` followed by the repository paths of `paths`,
/// each as its own argument and in order.
pub open spec fn followed_by_paths(args: Seq<Seq<char>>, prefix: Seq<Seq<char>>, paths: Seq<TreePath>) -> bool {
    &&& args.len() == prefix.len() + paths.len()
    &&& args.take(prefix.len() as int) == prefix
    &&& forall|i: int| 0 <= i < paths.len() ==> #[trigger] args[prefix.len() + i] == paths[i].repo_path@
}

/// Inserting revisions between two others first resolves the revision
/// before which they go, and it is that revision's immutability that
/// refuses the insert; when it and the revset are mutable, the revset is
/// rebased after the `after` revision and before the `before` one.
pub proof fn law_insert_revisions_checks_before(m: InsertRevisions)
    ensures
        next_step(m.planned(), seq![]) == (StepModel::Ask {
            request: RequestModel::Check { check: CheckModel::ResolveChange { rev: m.before_id@ } },
        }),
        next_step(m.planned(), seq![ReplyModel::Resolved]) == (StepModel::Ask {
            request: RequestModel::Check {
                check: CheckModel::Immutable { message: "Cannot insert before immutable revision"@ },
            },
        }),
        refused_with(
            next_step(m.planned(), seq![ReplyModel::Resolved, ReplyModel::Immutable { immutable: true }]),
            "Cannot insert before immutable revision"@,
        ),
        asks_to_run(
            next_step(
                m.planned(),
                seq![
                    ReplyModel::Resolved,
                    ReplyModel::Immutable { immutable: false },
                    ReplyModel::Immutable { immutable: false },
                ],
            ),
            seq![
                "rebase"@,
                "-r"@,
                m.revset@,
                "--insert-after"@,
                m.after_id.commit.hex@,
                "--insert-before"@,
                m.before_id.commit.hex@,
            ],
        ),
{
    reveal_with_fuel(crate::protocol::step_from, 4);
}

/// Moving changes squashes exactly the chosen paths: after the target
/// commit is resolved and found mutable, the command is `squash --from
/// <source> --into <target>` followed by each chosen path, in order; an
/// immutable target refuses the move.
pub proof fn law_move_changes_squashes_chosen_paths(m: MoveChanges)
    ensures
        next_step(m.planned(), seq![]) == (StepModel::Ask {
            request: RequestModel::Check { check: CheckModel::ResolveCommit { commit: m.to_id@ } },
        }),
        refused_with(
            next_step(m.planned(), seq![ReplyModel::Resolved, ReplyModel::Immutable { immutable: true }]),
            "Revisions are immutable"@,
        ),
        next_step(m.planned(), seq![ReplyModel::Resolved, ReplyModel::Immutable { immutable: false }])
            matches StepModel::Ask { request: RequestModel::Run { command } }
            && command.ignore_working_copy && followed_by_paths(
            command.args,
            seq!["squash"@, "--from"@, m.from_id.commit.hex@, "--into"@, m.to_id.hex@],
            m.paths@,
        ),
{
    reveal_with_fuel(crate::protocol::step_from, 3);
    let args = seq!["squash"@, "--from"@, m.from_id.commit.hex@, "--into"@, m.to_id.hex@]
        + path_strings(m.paths@);
    assert(args.take(5) =~= seq!["squash"@, "--from"@, m.from_id.commit.hex@, "--into"@, m.to_id.hex@]);
    assert forall|i: int| 0 <= i < m.paths@.len() implies #[trigger] args[5 + i] == m.paths@[i].repo_path@ by {
        assert(args[5 + i] == path_strings(m.paths@)[i]);
    }
}

/// Copying changes resolves the target revision and refuses only when the
/// target is immutable; otherwise it restores exactly the chosen paths from
/// the source commit into the target.
pub proof fn law_copy_changes_checks_target(m: CopyChanges)
    ensures
        next_step(m.planned(), seq![]) == (StepModel::Ask {
            request: RequestModel::Check { check: CheckModel::ResolveChange { rev: m.to_id@ } },
        }),
        refused_with(
            next_step(m.planned(), seq![ReplyModel::Resolved, ReplyModel::Immutable { immutable: true }]),
            "Revisions are immutable"@,
        ),
        next_step(m.planned(), seq![ReplyModel::Resolved, ReplyModel::Immutable { immutable: false }])
            matches StepModel::Ask { request: RequestModel::Run { command } }
            && command.ignore_working_copy && followed_by_paths(
            command.args,
            seq!["restore"@, "--from"@, m.from_id.hex@, "--into"@, m.to_id.commit.hex@],
            m.paths@,
        ),
{
    reveal_with_fuel(crate::protocol::step_from, 3);
    let args = seq!["restore"@, "--from"@, m.from_id.hex@, "--into"@, m.to_id.commit.hex@]
        + path_strings(m.paths@);
    assert(args.take(5) =~= seq!["restore"@, "--from"@, m.from_id.hex@, "--into"@, m.to_id.commit.hex@]);
    assert forall|i: int| 0 <= i < m.paths@.len() implies #[trigger] args[5 + i] == m.paths@[i].repo_path@ by {
        assert(args[5 + i] == path_strings(m.paths@)[i]);
    }
}

/// Creating a revision between two others resolves the `before` revision
/// and refuses only when it is immutable; otherwise the new revision goes
/// after the `after` commit and before the `before` revision.
pub proof fn law_create_between_checks_before(m: CreateRevisionBetween)
    ensures
        next_step(m.planned(), seq![]) == (StepModel::Ask {
            request: RequestModel::Check { check: CheckModel::ResolveChange { rev: m.before_id@ } },
        }),
        refused_with(
            next_step(m.planned(), seq![ReplyModel::Resolved, ReplyModel::Immutable { immutable: true }]),
            "'Before' revision is immutable"@,
        ),
        asks_to_run(
            next_step(m.planned(), seq![ReplyModel::Resolved, ReplyModel::Immutable { immutable: false }]),
            seq![
                "new"@,
                "--insert-after"@,
                m.after_id.hex@,
                "--insert-before"@,
                m.before_id.commit.hex@,
            ],
        ),
{
    reveal_with_fuel(crate::protocol::step_from, 3);
}

} // verus!
