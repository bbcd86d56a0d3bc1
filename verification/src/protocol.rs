//! A mutation carried out through `jj` as a conversation with its driver:
//! the mutation is described by a `Plan` (checks on the repository, then
//! either a final outcome or `jj` commands to run followed by a reload), and
//! `next_step` says, from the replies received so far, what to ask next or
//! how the mutation ended.

use vstd::prelude::*;

use crate::messages::{CommitId, IdModel, RevId, RevIdModel};
use crate::text::strings_model;

verus! {

/// Something to find out about the repository before any command runs.
#[derive(Debug, Clone, PartialEq, Eq)]
pub enum Check {
    /// Resolve the revision; a failure ends the mutation with that error.
    ResolveChange { rev: RevId },
    /// Resolve the commit; a failure ends the mutation with that error.
    ResolveCommit { commit: CommitId },
    /// Whether the commit last resolved is immutable; if so the mutation
    /// ends with a precondition error carrying `message`.
    Immutable { message: String },
    /// Whether the revset holds an immutable revision; if so the mutation
    /// ends with a precondition error carrying `message`.
    ImmutableRevset { revset: String, message: String },
    /// The description of the commit last resolved; if it equals
    /// `description` and the author is not to be reset, nothing changes.
    SameDescription { description: String, reset_author: bool },
    /// Whether the commit last resolved is the working-copy commit; if so
    /// nothing changes.
    IsWorkingCopy,
}

/// `Check` by its models.
#[verifier::ext_equal]
pub enum CheckModel {
    ResolveChange { rev: RevIdModel },
    ResolveCommit { commit: IdModel },
    Immutable { message: Seq<char> },
    ImmutableRevset { revset: Seq<char>, message: Seq<char> },
    SameDescription { description: Seq<char>, reset_author: bool },
    IsWorkingCopy,
}

impl View for Check {
    type V = CheckModel;

    open spec fn view(&self) -> CheckModel {
        match self {
            Check::ResolveChange { rev } => CheckModel::ResolveChange { rev: rev@ },
            Check::ResolveCommit { commit } => CheckModel::ResolveCommit { commit: commit@ },
            Check::Immutable { message } => CheckModel::Immutable { message: message@ },
            Check::ImmutableRevset { revset, message } => CheckModel::ImmutableRevset {
                revset: revset@,
                message: message@,
            },
            Check::SameDescription { description, reset_author } => CheckModel::SameDescription {
                description: description@,
                reset_author: *reset_author,
            },
            Check::IsWorkingCopy => CheckModel::IsWorkingCopy,
        }
    }
}

/// One `jj` invocation: its arguments, the context its failure is
/// reported with, and whether it runs with `--ignore-working-copy` (neither
/// snapshotting the working copy nor updating it).
#[derive(Debug, Clone, PartialEq, Eq)]
pub struct Command {
    pub args: Vec<String>,
    pub context: String,
    pub ignore_working_copy: bool,
}

/// `Command` by its models.
#[verifier::ext_equal]
pub struct CommandModel {
    pub args: Seq<Seq<char>>,
    pub context: Seq<char>,
    pub ignore_working_copy: bool,
}

impl View for Command {
    type V = CommandModel;

    open spec fn view(&self) -> CommandModel {
        CommandModel {
            args: strings_model(self.args@),
            context: self.context@,
            ignore_working_copy: self.ignore_working_copy,
        }
    }
}

/// What a mutation that changed the repository reports besides the new
/// status.
#[derive(Debug, PartialEq, Eq, Structural, Copy, Clone)]
pub enum Report {
    /// The new status alone.
    Status,
    /// The new status and the header of the commit last resolved, formatted
    /// with the flag `Some(false)`.
    ResolvedSelection,
    /// The new status and the header of the working-copy commit, formatted
    /// with the flag `header_flag`.
    WorkingCopySelection { header_flag: Option<bool> },
}

/// How a mutation ended.
#[derive(Debug, Clone, PartialEq, Eq)]
pub enum Outcome {
    /// The repository did not change.
    Unchanged,
    /// The repository changed; `report` says what is reported.
    Changed { report: Report },
    /// The mutation was refused before any command ran.
    PreconditionError { message: String },
    /// A query or command failed with `cause`; `context` says which command.
    Failed { context: Option<String>, cause: String },
    /// A reply did not answer the question asked.
    Unexpected,
}

/// `Outcome` by its models.
#[verifier::ext_equal]
pub enum OutcomeModel {
    Unchanged,
    Changed { report: Report },
    PreconditionError { message: Seq<char> },
    Failed { context: Option<Seq<char>>, cause: Seq<char> },
    Unexpected,
}

impl View for Outcome {
    type V = OutcomeModel;

    open spec fn view(&self) -> OutcomeModel {
        match self {
            Outcome::Unchanged => OutcomeModel::Unchanged,
            Outcome::Changed { report } => OutcomeModel::Changed { report: *report },
            Outcome::PreconditionError { message } => OutcomeModel::PreconditionError {
                message: message@,
            },
            Outcome::Failed { context, cause } => OutcomeModel::Failed {
                context: match context {
                    Some(c) => Some(c@),
                    None => None,
                },
                cause: cause@,
            },
            Outcome::Unexpected => OutcomeModel::Unexpected,
        }
    }
}

/// What follows the checks.
#[derive(Debug, Clone, PartialEq, Eq)]
pub enum Verdict {
    /// The mutation ends here.
    Stop { outcome: Outcome },
    /// The commands run in order, then the repository is reloaded.
    Run { commands: Vec<Command>, report: Report },
}

/// `Verdict` by its models.
#[verifier::ext_equal]
pub enum VerdictModel {
    Stop { outcome: OutcomeModel },
    Run { commands: Seq<CommandModel>, report: Report },
}

impl View for Verdict {
    type V = VerdictModel;

    open spec fn view(&self) -> VerdictModel {
        match self {
            Verdict::Stop { outcome } => VerdictModel::Stop { outcome: outcome@ },
            Verdict::Run { commands, report } => VerdictModel::Run {
                commands: commands@.map_values(|c: Command| c@),
                report: *report,
            },
        }
    }
}

/// How a mutation is carried out.
#[derive(Debug, Clone, PartialEq, Eq)]
pub struct Plan {
    pub checks: Vec<Check>,
    pub verdict: Verdict,
}

/// `Plan` by its models.
#[verifier::ext_equal]
pub struct PlanModel {
    pub checks: Seq<CheckModel>,
    pub verdict: VerdictModel,
}

impl View for Plan {
    type V = PlanModel;

    open spec fn view(&self) -> PlanModel {
        PlanModel { checks: self.checks@.map_values(|c: Check| c@), verdict: self.verdict@ }
    }
}

/// The driver's answer to a request.
#[derive(Debug, Clone, PartialEq, Eq)]
pub enum Reply {
    /// The revision or commit was resolved.
    Resolved,
    /// Whether the commit or revset is immutable.
    Immutable { immutable: bool },
    /// The description of the commit.
    Description { text: String },
    /// Whether the commit is the working-copy commit.
    WorkingCopy { is_working_copy: bool },
    /// The command ran successfully.
    CommandSucceeded,
    /// The repository was reloaded; whether it changed.
    Reloaded { changed: bool },
    /// The request failed with `cause`.
    Failed { cause: String },
}

/// `Reply` by its models.
#[verifier::ext_equal]
pub enum ReplyModel {
    Resolved,
    Immutable { immutable: bool },
    Description { text: Seq<char> },
    WorkingCopy { is_working_copy: bool },
    CommandSucceeded,
    Reloaded { changed: bool },
    Failed { cause: Seq<char> },
}

impl View for Reply {
    type V = ReplyModel;

    open spec fn view(&self) -> ReplyModel {
        match self {
            Reply::Resolved => ReplyModel::Resolved,
            Reply::Immutable { immutable } => ReplyModel::Immutable { immutable: *immutable },
            Reply::Description { text } => ReplyModel::Description { text: text@ },
            Reply::WorkingCopy { is_working_copy } => ReplyModel::WorkingCopy {
                is_working_copy: *is_working_copy,
            },
            Reply::CommandSucceeded => ReplyModel::CommandSucceeded,
            Reply::Reloaded { changed } => ReplyModel::Reloaded { changed: *changed },
            Reply::Failed { cause } => ReplyModel::Failed { cause: cause@ },
        }
    }
}

/// `replies` by their models.
pub open spec fn replies_model(replies: Seq<Reply>) -> Seq<ReplyModel> {
    replies.map_values(|r: Reply| r@)
}

/// What the driver is asked to do next.
#[derive(Debug, Clone, PartialEq, Eq)]
pub enum Request {
    Check { check: Check },
    Run { command: Command },
    Reload,
}

/// `Request` by its models.
#[verifier::ext_equal]
pub enum RequestModel {
    Check { check: CheckModel },
    Run { command: CommandModel },
    Reload,
}

impl View for Request {
    type V = RequestModel;

    open spec fn view(&self) -> RequestModel {
        match self {
            Request::Check { check } => RequestModel::Check { check: check@ },
            Request::Run { command } => RequestModel::Run { command: command@ },
            Request::Reload => RequestModel::Reload,
        }
    }
}

/// The next step of a mutation.
#[derive(Debug, Clone, PartialEq, Eq)]
pub enum Step {
    /// Carry out `request` and reply.
    Ask { request: Request },
    /// The mutation ended with `outcome`.
    Done { outcome: Outcome },
}

/// `Step` by its models.
#[verifier::ext_equal]
pub enum StepModel {
    Ask { request: RequestModel },
    Done { outcome: OutcomeModel },
}

impl View for Step {
    type V = StepModel;

    open spec fn view(&self) -> StepModel {
        match self {
            Step::Ask { request } => StepModel::Ask { request: request@ },
            Step::Done { outcome } => StepModel::Done { outcome: outcome@ },
        }
    }
}

/// How `reply` to `check` ends the mutation, or `None` when it goes on.
pub open spec fn check_verdict(check: CheckModel, reply: ReplyModel) -> Option<OutcomeModel> {
    match reply {
        ReplyModel::Failed { cause } => Some(OutcomeModel::Failed { context: None, cause }),
        _ => match (check, reply) {
            (CheckModel::ResolveChange { .. }, ReplyModel::Resolved) => None,
            (CheckModel::ResolveCommit { .. }, ReplyModel::Resolved) => None,
            (CheckModel::Immutable { message }, ReplyModel::Immutable { immutable }) => {
                if immutable {
                    Some(OutcomeModel::PreconditionError { message })
                } else {
                    None
                }
            },
            (
                CheckModel::ImmutableRevset { message, .. },
                ReplyModel::Immutable { immutable },
            ) => {
                if immutable {
                    Some(OutcomeModel::PreconditionError { message })
                } else {
                    None
                }
            },
            (
                CheckModel::SameDescription { description, reset_author },
                ReplyModel::Description { text },
            ) => {
                if text == description && !reset_author {
                    Some(OutcomeModel::Unchanged)
                } else {
                    None
                }
            },
            (CheckModel::IsWorkingCopy, ReplyModel::WorkingCopy { is_working_copy }) => {
                if is_working_copy {
                    Some(OutcomeModel::Unchanged)
                } else {
                    None
                }
            },
            _ => Some(OutcomeModel::Unexpected),
        },
    }
}

/// How `reply` to running `command` ends the mutation, or `None` when it
/// goes on.
pub open spec fn command_verdict(command: CommandModel, reply: ReplyModel) -> Option<OutcomeModel> {
    match reply {
        ReplyModel::CommandSucceeded => None,
        ReplyModel::Failed { cause } => Some(
            OutcomeModel::Failed { context: Some(command.context), cause },
        ),
        _ => Some(OutcomeModel::Unexpected),
    }
}

/// How `reply` to the reload ends the mutation.
pub open spec fn reload_outcome(report: Report, reply: ReplyModel) -> OutcomeModel {
    match reply {
        ReplyModel::Reloaded { changed } => {
            if changed {
                OutcomeModel::Changed { report }
            } else {
                OutcomeModel::Unchanged
            }
        },
        ReplyModel::Failed { cause } => OutcomeModel::Failed { context: None, cause },
        _ => OutcomeModel::Unexpected,
    }
}

/// The number of requests the plan makes when every reply lets it go on.
pub open spec fn stage_count(plan: PlanModel) -> nat {
    plan.checks.len() + match plan.verdict {
        VerdictModel::Stop { .. } => 0nat,
        VerdictModel::Run { commands, .. } => commands.len() + 1,
    }
}

/// The step after the replies `replies`, reading them from position `i`
/// once the earlier ones let the mutation go on: the checks in order, then
/// the verdict, which either ends the mutation or runs its commands in order
/// and then reloads the repository.
pub open spec fn step_from(plan: PlanModel, replies: Seq<ReplyModel>, i: nat) -> StepModel
    decreases stage_count(plan) - i,
{
    if i < plan.checks.len() {
        if i >= replies.len() {
            StepModel::Ask { request: RequestModel::Check { check: plan.checks[i as int] } }
        } else {
            match check_verdict(plan.checks[i as int], replies[i as int]) {
                Some(outcome) => StepModel::Done { outcome },
                None => step_from(plan, replies, i + 1),
            }
        }
    } else {
        match plan.verdict {
            VerdictModel::Stop { outcome } => StepModel::Done { outcome },
            VerdictModel::Run { commands, report } => {
                let j = i - plan.checks.len();
                if j < commands.len() {
                    if i >= replies.len() {
                        StepModel::Ask { request: RequestModel::Run { command: commands[j] } }
                    } else {
                        match command_verdict(commands[j], replies[i as int]) {
                            Some(outcome) => StepModel::Done { outcome },
                            None => step_from(plan, replies, i + 1),
                        }
                    }
                } else if i >= replies.len() {
                    StepModel::Ask { request: RequestModel::Reload }
                } else {
                    StepModel::Done { outcome: reload_outcome(report, replies[i as int]) }
                }
            },
        }
    }
}

/// The step of the mutation planned by `plan` after the replies `replies`.
pub open spec fn next_step(plan: PlanModel, replies: Seq<ReplyModel>) -> StepModel {
    step_from(plan, replies, 0)
}


/// `o` by its model.
pub open spec fn outcome_option_model(o: Option<Outcome>) -> Option<OutcomeModel> {
    match o {
        Some(outcome) => Some(outcome@),
        None => None,
    }
}

fn copy_strings(v: &Vec<String>) -> (r: Vec<String>)
    ensures
        strings_model(r@) == strings_model(v@),
{
    let mut r: Vec<String> = Vec::new();
    let mut i: usize = 0;
    while i < v.len()
        invariant
            i <= v.len(),
            strings_model(r@) == strings_model(v@.take(i as int)),
        decreases v.len() - i,
    {
        let ghost before = r@;
        r.push(v[i].clone());
        assert(strings_model(r@) =~= strings_model(before).push(v@[i as int]@));
        assert(strings_model(v@.take(i as int + 1)) =~= strings_model(v@.take(i as int)).push(
            v@[i as int]@,
        ));
        i = i + 1;
    }
    assert(v@.take(v.len() as int) =~= v@);
    r
}

impl Check {
    /// A copy of this check.
    pub fn duplicate(&self) -> (c: Self)
        ensures
            c@ == self@,
    {
        match self {
            Check::ResolveChange { rev } => Check::ResolveChange { rev: rev.duplicate() },
            Check::ResolveCommit { commit } => Check::ResolveCommit { commit: commit.duplicate() },
            Check::Immutable { message } => Check::Immutable { message: message.clone() },
            Check::ImmutableRevset { revset, message } => Check::ImmutableRevset {
                revset: revset.clone(),
                message: message.clone(),
            },
            Check::SameDescription { description, reset_author } => Check::SameDescription {
                description: description.clone(),
                reset_author: *reset_author,
            },
            Check::IsWorkingCopy => Check::IsWorkingCopy,
        }
    }
}

impl Command {
    /// A copy of this command.
    pub fn duplicate(&self) -> (c: Self)
        ensures
            c@ == self@,
    {
        Command {
            args: copy_strings(&self.args),
            context: self.context.clone(),
            ignore_working_copy: self.ignore_working_copy,
        }
    }
}

impl Outcome {
    /// A copy of this outcome.
    pub fn duplicate(&self) -> (o: Self)
        ensures
            o@ == self@,
    {
        match self {
            Outcome::Unchanged => Outcome::Unchanged,
            Outcome::Changed { report } => Outcome::Changed { report: *report },
            Outcome::PreconditionError { message } => Outcome::PreconditionError {
                message: message.clone(),
            },
            Outcome::Failed { context, cause } => Outcome::Failed {
                context: match context {
                    Some(c) => Some(c.clone()),
                    None => None,
                },
                cause: cause.clone(),
            },
            Outcome::Unexpected => Outcome::Unexpected,
        }
    }
}

/// How `reply` to `check` ends the mutation, or `None` when it goes on.
fn check_outcome(check: &Check, reply: &Reply) -> (o: Option<Outcome>)
    ensures
        outcome_option_model(o) == check_verdict(check@, reply@),
{
    if let Reply::Failed { cause } = reply {
        return Some(Outcome::Failed { context: None, cause: cause.clone() });
    }
    match (check, reply) {
        (Check::ResolveChange { .. }, Reply::Resolved) => None,
        (Check::ResolveCommit { .. }, Reply::Resolved) => None,
        (Check::Immutable { message }, Reply::Immutable { immutable }) => {
            if *immutable {
                Some(Outcome::PreconditionError { message: message.clone() })
            } else {
                None
            }
        },
        (Check::ImmutableRevset { message, .. }, Reply::Immutable { immutable }) => {
            if *immutable {
                Some(Outcome::PreconditionError { message: message.clone() })
            } else {
                None
            }
        },
        (Check::SameDescription { description, reset_author }, Reply::Description { text }) => {
            if *text == *description && !*reset_author {
                Some(Outcome::Unchanged)
            } else {
                None
            }
        },
        (Check::IsWorkingCopy, Reply::WorkingCopy { is_working_copy }) => {
            if *is_working_copy {
                Some(Outcome::Unchanged)
            } else {
                None
            }
        },
        _ => Some(Outcome::Unexpected),
    }
}

/// How `reply` to running `command` ends the mutation, or `None` when it
/// goes on.
fn command_outcome(command: &Command, reply: &Reply) -> (o: Option<Outcome>)
    ensures
        outcome_option_model(o) == command_verdict(command@, reply@),
{
    match reply {
        Reply::CommandSucceeded => None,
        Reply::Failed { cause } => Some(
            Outcome::Failed { context: Some(command.context.clone()), cause: cause.clone() },
        ),
        _ => Some(Outcome::Unexpected),
    }
}

/// How `reply` to the reload ends the mutation.
fn reload_result(report: Report, reply: &Reply) -> (o: Outcome)
    ensures
        o@ == reload_outcome(report, reply@),
{
    match reply {
        Reply::Reloaded { changed } => {
            if *changed {
                Outcome::Changed { report }
            } else {
                Outcome::Unchanged
            }
        },
        Reply::Failed { cause } => Outcome::Failed { context: None, cause: cause.clone() },
        _ => Outcome::Unexpected,
    }
}

impl Plan {
    /// The step of this mutation after the replies `replies` to its
    /// requests so far.
    pub fn next_step(&self, replies: &Vec<Reply>) -> (step: Step)
        ensures
            step@ == next_step(self@, replies_model(replies@)),
    {
        let ghost plan = self@;
        let ghost rs = replies_model(replies@);
        let n = self.checks.len();
        let mut i: usize = 0;
        while i < n
            invariant
                i <= n == self.checks.len() == plan.checks.len(),
                plan == self@,
                rs == replies_model(replies@),
                i <= replies.len(),
                step_from(plan, rs, 0) == step_from(plan, rs, i as nat),
            decreases n - i,
        {
            if i >= replies.len() {
                return Step::Ask { request: Request::Check { check: self.checks[i].duplicate() } };
            }
            match check_outcome(&self.checks[i], &replies[i]) {
                Some(outcome) => {
                    return Step::Done { outcome };
                },
                None => {},
            }
            i = i + 1;
        }
        match &self.verdict {
            Verdict::Stop { outcome } => Step::Done { outcome: outcome.duplicate() },
            Verdict::Run { commands, report } => {
                let remaining = replies.len() - n;
                let mut j: usize = 0;
                while j < commands.len()
                    invariant
                        n == self.checks.len() == plan.checks.len(),
                        plan == self@,
                        rs == replies_model(replies@),
                        self.verdict == (Verdict::Run { commands: *commands, report: *report }),
                        j <= commands.len(),
                        remaining == replies.len() - n,
                        j <= remaining,
                        step_from(plan, rs, 0) == step_from(plan, rs, (n + j) as nat),
                    decreases commands.len() - j,
                {
                    if j >= remaining {
                        return Step::Ask { request: Request::Run { command: commands[j].duplicate() } };
                    }
                    match command_outcome(&commands[j], &replies[n + j]) {
                        Some(outcome) => {
                            return Step::Done { outcome };
                        },
                        None => {},
                    }
                    j = j + 1;
                }
                if j >= remaining {
                    Step::Ask { request: Request::Reload }
                } else {
                    Step::Done { outcome: reload_result(*report, &replies[n + j]) }
                }
            },
        }
    }
}


/// A plan whose final outcome, when it stops without running commands, does
/// not claim that the repository changed.
pub open spec fn plan_well_formed(plan: PlanModel) -> bool {
    !(plan.verdict matches VerdictModel::Stop { outcome: OutcomeModel::Changed { .. } })
}

/// Every check from position `from` on was answered and let the mutation go
/// on.
pub open spec fn checks_pass_from(plan: PlanModel, replies: Seq<ReplyModel>, from: int) -> bool {
    forall|k: int|
        from <= k < plan.checks.len() ==> k < replies.len() && #[trigger] check_verdict(
            plan.checks[k],
            replies[k],
        ) is None
}

/// Every check was answered and let the mutation go on.
pub open spec fn checks_pass(plan: PlanModel, replies: Seq<ReplyModel>) -> bool {
    checks_pass_from(plan, replies, 0)
}

/// The commands at positions `from` up to `to` were run and succeeded.
pub open spec fn commands_pass(plan: PlanModel, replies: Seq<ReplyModel>, from: int, to: int) -> bool {
    plan.verdict matches VerdictModel::Run { commands, .. } && forall|j: int|
        from <= j < to ==> plan.checks.len() + j < replies.len() && #[trigger] command_verdict(
            commands[j],
            replies[plan.checks.len() + j],
        ) is None
}

/// A step that is only reached once every check let the mutation go on.
pub open spec fn past_checks(step: StepModel) -> bool {
    ||| step matches StepModel::Ask { request: RequestModel::Run { .. } }
    ||| step matches StepModel::Ask { request: RequestModel::Reload }
    ||| step matches StepModel::Done { outcome: OutcomeModel::Changed { .. } }
}

proof fn lemma_checks_phase(plan: PlanModel, replies: Seq<ReplyModel>, i: nat)
    requires
        i <= plan.checks.len(),
        past_checks(step_from(plan, replies, i)),
    ensures
        checks_pass_from(plan, replies, i as int),
        step_from(plan, replies, i) == step_from(plan, replies, plan.checks.len()),
        i < plan.checks.len() ==> plan.checks.len() <= replies.len(),
    decreases plan.checks.len() - i,
{
    if i < plan.checks.len() {
        lemma_checks_phase(plan, replies, i + 1);
    }
}

proof fn lemma_commands_phase(plan: PlanModel, replies: Seq<ReplyModel>, j: nat)
    requires
        plan.verdict is Run,
        j <= plan.verdict->Run_commands.len(),
        plan.checks.len() + j <= replies.len(),
        past_checks(step_from(plan, replies, plan.checks.len() + j)),
    ensures
        ({
            let n = plan.checks.len();
            let commands = plan.verdict->Run_commands;
            let step = step_from(plan, replies, n + j);
            &&& step matches StepModel::Ask { request: RequestModel::Run { command } } ==> {
                &&& n + j <= replies.len() < n + commands.len()
                &&& command == commands[replies.len() - n]
                &&& commands_pass(plan, replies, j as int, replies.len() - n)
            }
            &&& step matches StepModel::Ask { request: RequestModel::Reload } ==> {
                &&& replies.len() == n + commands.len()
                &&& commands_pass(plan, replies, j as int, commands.len() as int)
            }
            &&& step matches StepModel::Done { outcome: OutcomeModel::Changed { report } } ==> {
                &&& n + commands.len() < replies.len()
                &&& commands_pass(plan, replies, j as int, commands.len() as int)
                &&& replies[(n + commands.len()) as int] == (ReplyModel::Reloaded { changed: true })
                &&& report == plan.verdict->Run_report
            }
        }),
    decreases plan.verdict->Run_commands.len() - j,
{
    let n = plan.checks.len();
    let commands = plan.verdict->Run_commands;
    if j < commands.len() && n + j < replies.len() {
        lemma_commands_phase(plan, replies, j + 1);
        assert(command_verdict(commands[j as int], replies[(n + j) as int]) is None);
        let step = step_from(plan, replies, n + j);
        if step matches StepModel::Ask { request: RequestModel::Run { .. } } {
            assert forall|k: int| j <= k < replies.len() - n implies n + k < replies.len() && #[trigger] command_verdict(commands[k], replies[n + k]) is None by {
                if k > j {
                    assert(commands_pass(plan, replies, (j + 1) as int, replies.len() - n));
                }
            }
        }
        if step matches StepModel::Ask { request: RequestModel::Reload } {
            assert forall|k: int| j <= k < commands.len() implies n + k < replies.len() && #[trigger] command_verdict(commands[k], replies[n + k]) is None by {
                if k > j {
                    assert(commands_pass(plan, replies, (j + 1) as int, commands.len() as int));
                }
            }
        }
        if step matches StepModel::Done { outcome: OutcomeModel::Changed { .. } } {
            assert forall|k: int| j <= k < commands.len() implies n + k < replies.len() && #[trigger] command_verdict(commands[k], replies[n + k]) is None by {
                if k > j {
                    assert(commands_pass(plan, replies, (j + 1) as int, commands.len() as int));
                }
            }
        }
    }
}

/// No `jj` command is asked for before every check was answered and let the
/// mutation go on: a refused precondition, an immutable revision, an
/// unchanged description or an error ends the mutation with no command run.
pub proof fn law_commands_wait_for_checks(plan: PlanModel, replies: Seq<ReplyModel>)
    requires
        plan_well_formed(plan),
        past_checks(next_step(plan, replies)),
    ensures
        replies.len() >= plan.checks.len(),
        checks_pass(plan, replies),
        plan.verdict is Run,
{
    lemma_checks_phase(plan, replies, 0);
}

/// The commands are asked for one after the other, in the plan's order, each
/// only after all earlier ones succeeded.
pub proof fn law_commands_in_order(plan: PlanModel, replies: Seq<ReplyModel>, command: CommandModel)
    requires
        plan_well_formed(plan),
        next_step(plan, replies) == (StepModel::Ask { request: RequestModel::Run { command } }),
    ensures
        plan.verdict is Run,
        plan.checks.len() <= replies.len() < plan.checks.len() + plan.verdict->Run_commands.len(),
        command == plan.verdict->Run_commands[replies.len() - plan.checks.len()],
        commands_pass(plan, replies, 0, replies.len() - plan.checks.len()),
{
    lemma_checks_phase(plan, replies, 0);
    lemma_commands_phase(plan, replies, 0);
}

/// The repository is reloaded only after every command succeeded.
pub proof fn law_reload_after_all_commands(plan: PlanModel, replies: Seq<ReplyModel>)
    requires
        plan_well_formed(plan),
        next_step(plan, replies) == (StepModel::Ask { request: RequestModel::Reload }),
    ensures
        plan.verdict is Run,
        replies.len() == plan.checks.len() + plan.verdict->Run_commands.len(),
        checks_pass(plan, replies),
        commands_pass(plan, replies, 0, plan.verdict->Run_commands.len() as int),
{
    lemma_checks_phase(plan, replies, 0);
    lemma_commands_phase(plan, replies, 0);
}

/// A mutation reports a change only when every check and command went
/// through and the reload found the repository changed; what it reports is
/// what the plan says.
pub proof fn law_changed_only_after_reload(plan: PlanModel, replies: Seq<ReplyModel>, report: Report)
    requires
        plan_well_formed(plan),
        next_step(plan, replies) == (StepModel::Done { outcome: OutcomeModel::Changed { report } }),
    ensures
        plan.verdict is Run,
        report == plan.verdict->Run_report,
        checks_pass(plan, replies),
        commands_pass(plan, replies, 0, plan.verdict->Run_commands.len() as int),
        replies[(plan.checks.len() + plan.verdict->Run_commands.len()) as int] == (ReplyModel::Reloaded {
            changed: true,
        }),
{
    lemma_checks_phase(plan, replies, 0);
    lemma_commands_phase(plan, replies, 0);
}

proof fn lemma_done_is_final(plan: PlanModel, replies: Seq<ReplyModel>, extra: Seq<ReplyModel>, i: nat)
    requires
        step_from(plan, replies, i) is Done,
    ensures
        step_from(plan, replies + extra, i) == step_from(plan, replies, i),
    decreases stage_count(plan) - i,
{
    let all = replies + extra;
    if i < plan.checks.len() {
        assert(all[i as int] == replies[i as int]);
        if check_verdict(plan.checks[i as int], replies[i as int]) is None {
            lemma_done_is_final(plan, replies, extra, i + 1);
        }
    } else if let VerdictModel::Run { commands, report } = plan.verdict {
        let j = i - plan.checks.len();
        assert(all[i as int] == replies[i as int]);
        if j < commands.len() && command_verdict(commands[j], replies[i as int]) is None {
            lemma_done_is_final(plan, replies, extra, i + 1);
        }
    }
}

/// Once a mutation has ended, further replies do not change how it ended.
pub proof fn law_finished_stays_finished(plan: PlanModel, replies: Seq<ReplyModel>, extra: Seq<ReplyModel>)
    requires
        next_step(plan, replies) is Done,
    ensures
        next_step(plan, replies + extra) == next_step(plan, replies),
{
    lemma_done_is_final(plan, replies, extra, 0);
}

proof fn lemma_reach(plan: PlanModel, replies: Seq<ReplyModel>, i: nat, to: nat)
    requires
        i <= to <= stage_count(plan),
        to <= replies.len(),
        forall|k: int| i <= k < plan.checks.len() && k < to ==> #[trigger] check_verdict(plan.checks[k], replies[k]) is None,
        plan.verdict is Run ==> forall|k: int| plan.checks.len() <= k < to && k < plan.checks.len() + plan.verdict->Run_commands.len() ==> #[trigger] command_verdict(
            plan.verdict->Run_commands[k - plan.checks.len()],
            replies[k],
        ) is None,
        plan.verdict is Stop ==> to <= plan.checks.len(),
        plan.verdict is Run ==> to <= plan.checks.len() + plan.verdict->Run_commands.len(),
    ensures
        step_from(plan, replies, i) == step_from(plan, replies, to),
    decreases to - i,
{
    if i < to {
        if i < plan.checks.len() {
            assert(check_verdict(plan.checks[i as int], replies[i as int]) is None);
        } else {
            let k = i as int;
            assert(command_verdict(
                plan.verdict->Run_commands[k - plan.checks.len()],
                replies[k],
            ) is None);
        }
        lemma_reach(plan, replies, i + 1, to);
    }
}

/// When the checks went through and the first `k` commands succeeded, a
/// failure of command `k` ends the mutation with that command's context and
/// the failure's cause.
pub proof fn law_failed_command_reports_context(plan: PlanModel, replies: Seq<ReplyModel>, k: int, cause: Seq<char>)
    requires
        plan.verdict is Run,
        0 <= k < plan.verdict->Run_commands.len(),
        checks_pass(plan, replies),
        commands_pass(plan, replies, 0, k),
        plan.checks.len() + k < replies.len(),
        replies[plan.checks.len() + k] == (ReplyModel::Failed { cause }),
    ensures
        next_step(plan, replies) == (StepModel::Done {
            outcome: OutcomeModel::Failed {
                context: Some(plan.verdict->Run_commands[k].context),
                cause,
            },
        }),
{
    let n = plan.checks.len();
    let to = (n + k) as nat;
    assert forall|i: int| 0 <= i < n && i < to implies #[trigger] check_verdict(plan.checks[i], replies[i]) is None by {
        assert(checks_pass_from(plan, replies, 0));
    }
    assert forall|i: int| n <= i < to && i < n + plan.verdict->Run_commands.len() implies #[trigger] command_verdict(
        plan.verdict->Run_commands[i - n],
        replies[i],
    ) is None by {
        let j = i - n;
        assert(command_verdict(plan.verdict->Run_commands[j], replies[n + j]) is None);
    }
    lemma_reach(plan, replies, 0, to);
}


/// When the checks before check `k` let the mutation go on and the reply to
/// check `k` ends it (an immutable revision, an unchanged description, the
/// working copy already there, a failure), the mutation ends right there,
/// with that outcome, and no command is asked for.
pub proof fn law_refusing_check_ends_mutation(plan: PlanModel, replies: Seq<ReplyModel>, k: int, outcome: OutcomeModel)
    requires
        0 <= k < plan.checks.len(),
        k < replies.len(),
        forall|i: int| 0 <= i < k ==> #[trigger] check_verdict(plan.checks[i], replies[i]) is None,
        check_verdict(plan.checks[k], replies[k]) == Some(outcome),
    ensures
        next_step(plan, replies) == (StepModel::Done { outcome }),
{
    lemma_reach(plan, replies, 0, k as nat);
}

} // verus!
