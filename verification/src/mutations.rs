//! The mutations carried out inside the repository rather than through the
//! `jj` command line: their decisions, step by step.

use vstd::prelude::*;

use crate::hunk::{content_lines, hunk_result, hunk_start, try_apply_hunk, HunkError, HunkFailure};
use crate::messages::{BackoutRevisions, ChangeHunk, MoveHunk, RevId, RevIdModel};
use crate::text::owned;
use vstd::string::StringExecFns;

verus! {

/// What backing out revisions starts with.
#[derive(Debug, Clone, PartialEq, Eq)]
pub enum BackoutStep {
    /// The mutation is refused with `message`.
    Refuse { message: String },
    /// Back out the revision `id` into the working copy.
    BackOut { id: RevId },
}

/// `BackoutStep` by its models.
pub enum BackoutStepModel {
    Refuse { message: Seq<char> },
    BackOut { id: RevIdModel },
}

impl View for BackoutStep {
    type V = BackoutStepModel;

    open spec fn view(&self) -> BackoutStepModel {
        match self {
            BackoutStep::Refuse { message } => BackoutStepModel::Refuse { message: message@ },
            BackoutStep::BackOut { id } => BackoutStepModel::BackOut { id: id@ },
        }
    }
}

/// The description of the operation that backs out the commit with hash
/// `hex`.
pub open spec fn backout_description(hex: Seq<char>) -> Seq<char> {
    "back out commit "@ + hex
}

/// The description of the operation that backs out the commit with hash
/// `hex`.
pub fn backout_description_of(hex: &String) -> (d: String)
    ensures
        d@ == backout_description(hex@),
{
    let mut d = owned("back out commit ");
    d.append(hex.as_str());
    d
}

/// Whether `path` is a repository path: it neither starts nor ends with `/`
/// and holds no `//`, so that no component is empty.
pub open spec fn valid_repo_path(path: Seq<char>) -> bool {
    &&& !(path.len() > 0 && path[0] == '/')
    &&& !(path.len() > 0 && path.last() == '/')
    &&& !(exists|i: int| 0 <= i < path.len() - 1 && path[i] == '/' && #[trigger] path[i + 1] == '/')
}

/// The error of a path that is not a repository path.
pub open spec fn invalid_path_message(path: Seq<char>) -> Seq<char> {
    "Invalid repo path input \""@ + path + "\""@
}

/// The description of the operation that moves a hunk of the file `path`
/// from the commit with hash `from` to the one with hash `to`.
pub open spec fn hunk_move_description(path: Seq<char>, from: Seq<char>, to: Seq<char>) -> Seq<char> {
    "move hunk in file "@ + path + " from "@ + from + " to "@ + to
}

/// Whether `path` is a repository path.
pub fn is_valid_repo_path(path: &String) -> (b: bool)
    ensures
        b == valid_repo_path(path@),
{
    let chars = crate::text::chars_of(path.as_str());
    let n = chars.len();
    if n > 0 && (chars[0] == '/' || chars[n - 1] == '/') {
        return false;
    }
    let mut i: usize = 0;
    while n > 0 && i < n - 1
        invariant
            n == chars@.len(),
            chars@ == path@,
            i <= n,
            forall|j: int| 0 <= j < i && j < n - 1 ==> !(chars@[j] == '/' && #[trigger] chars@[j + 1] == '/'),
        decreases n - i,
    {
        if chars[i] == '/' && chars[i + 1] == '/' {
            assert(chars@[i as int + 1] == '/');
            return false;
        }
        i = i + 1;
    }
    true
}

fn invalid_path_message_of(path: &String) -> (m: String)
    ensures
        m@ == invalid_path_message(path@),
{
    let mut m = owned("Invalid repo path input \"");
    m.append(path.as_str());
    m.append("\"");
    m
}

fn hunk_move_description_of(path: &String, from: &String, to: &String) -> (d: String)
    ensures
        d@ == hunk_move_description(path@, from@, to@),
{
    let mut d = owned("move hunk in file ");
    d.append(path.as_str());
    d.append(" from ");
    d.append(from.as_str());
    d.append(" to ");
    d.append(to.as_str());
    d
}

impl BackoutRevisions {
    /// Only a single revision can be backed out.
    pub open spec fn first_step(&self) -> BackoutStepModel {
        if self.ids@.len() != 1 {
            BackoutStepModel::Refuse { message: "Not implemented for >1 rev"@ }
        } else {
            BackoutStepModel::BackOut { id: self.ids@[0]@ }
        }
    }

    /// How backing out starts: refused unless exactly one revision is given.
    pub fn execute(&self) -> (step: BackoutStep)
        ensures
            step@ == self.first_step(),
    {
        if self.ids.len() != 1 {
            BackoutStep::Refuse { message: owned("Not implemented for >1 rev") }
        } else {
            BackoutStep::BackOut { id: self.ids[0].duplicate() }
        }
    }
}

/// What moving a hunk asks its driver to do.
#[derive(Debug, Clone, PartialEq, Eq)]
pub enum HunkMoveRequest {
    /// Resolve the source revision and the target commit; count the
    /// source's parents and the target's, and find whether the target
    /// descends from the source.
    Inspect,
    /// Read the file at the hunk's path in the source's parent.
    ReadParentFile,
    /// Write `content` as the file at the path in the parent's tree, giving
    /// the hunk tree; merge the hunk out of the source's tree, giving the
    /// remainder; start a transaction.
    WriteHunk { content: Vec<u8> },
    /// Abandon the source, or rewrite it with the remainder tree.
    RewriteSource { abandon: bool },
    /// Make the rewritten source the only parent of the target.
    ReparentTarget,
    /// Merge the hunk into the target's tree; reply whether it changed.
    MergeIntoTarget,
    /// Rewrite the target with the merged tree.
    RewriteTargetTree,
    /// Rebase descendants and finish the transaction, recorded with
    /// `description`.
    Finish { description: String },
}

/// `HunkMoveRequest` by its models.
pub enum HunkMoveRequestModel {
    Inspect,
    ReadParentFile,
    WriteHunk { content: Seq<u8> },
    RewriteSource { abandon: bool },
    ReparentTarget,
    MergeIntoTarget,
    RewriteTargetTree,
    Finish { description: Seq<char> },
}

impl View for HunkMoveRequest {
    type V = HunkMoveRequestModel;

    open spec fn view(&self) -> HunkMoveRequestModel {
        match self {
            HunkMoveRequest::Inspect => HunkMoveRequestModel::Inspect,
            HunkMoveRequest::ReadParentFile => HunkMoveRequestModel::ReadParentFile,
            HunkMoveRequest::WriteHunk { content } => HunkMoveRequestModel::WriteHunk {
                content: content@,
            },
            HunkMoveRequest::RewriteSource { abandon } => HunkMoveRequestModel::RewriteSource {
                abandon: *abandon,
            },
            HunkMoveRequest::ReparentTarget => HunkMoveRequestModel::ReparentTarget,
            HunkMoveRequest::MergeIntoTarget => HunkMoveRequestModel::MergeIntoTarget,
            HunkMoveRequest::RewriteTargetTree => HunkMoveRequestModel::RewriteTargetTree,
            HunkMoveRequest::Finish { description } => HunkMoveRequestModel::Finish {
                description: description@,
            },
        }
    }
}

/// The driver's answer to a `HunkMoveRequest`.
#[derive(Debug, Clone, PartialEq, Eq)]
pub enum HunkMoveReply {
    /// The commits were resolved: the source's number of parents, whether
    /// the target descends from it, the target's number of parents, and the
    /// two commits' hashes as they are shown.
    Inspected {
        source_parents: usize,
        target_is_descendant: bool,
        target_parents: usize,
        source_hex: String,
        target_hex: String,
    },
    ParentFile { content: Vec<u8> },
    /// Whether the remainder tree equals the parent's tree, i.e. the hunk
    /// was all the source changed.
    HunkWritten { source_emptied: bool },
    /// The rewrite was done.
    Rewritten,
    TargetMerged { changed: bool },
    /// The transaction finished; whether the repository changed.
    Finished { changed: bool },
    Failed { cause: String },
}

/// `HunkMoveReply` by its models.
pub enum HunkMoveReplyModel {
    Inspected {
        source_parents: nat,
        target_is_descendant: bool,
        target_parents: nat,
        source_hex: Seq<char>,
        target_hex: Seq<char>,
    },
    ParentFile { content: Seq<u8> },
    HunkWritten { source_emptied: bool },
    Rewritten,
    TargetMerged { changed: bool },
    Finished { changed: bool },
    Failed { cause: Seq<char> },
}

impl View for HunkMoveReply {
    type V = HunkMoveReplyModel;

    open spec fn view(&self) -> HunkMoveReplyModel {
        match self {
            HunkMoveReply::Inspected {
                source_parents,
                target_is_descendant,
                target_parents,
                source_hex,
                target_hex,
            } => HunkMoveReplyModel::Inspected {
                source_parents: *source_parents as nat,
                target_is_descendant: *target_is_descendant,
                target_parents: *target_parents as nat,
                source_hex: source_hex@,
                target_hex: target_hex@,
            },
            HunkMoveReply::ParentFile { content } => HunkMoveReplyModel::ParentFile {
                content: content@,
            },
            HunkMoveReply::HunkWritten { source_emptied } => HunkMoveReplyModel::HunkWritten {
                source_emptied: *source_emptied,
            },
            HunkMoveReply::Rewritten => HunkMoveReplyModel::Rewritten,
            HunkMoveReply::TargetMerged { changed } => HunkMoveReplyModel::TargetMerged {
                changed: *changed,
            },
            HunkMoveReply::Finished { changed } => HunkMoveReplyModel::Finished {
                changed: *changed,
            },
            HunkMoveReply::Failed { cause } => HunkMoveReplyModel::Failed { cause: cause@ },
        }
    }
}

/// `replies` by their models.
pub open spec fn hunk_replies_model(replies: Seq<HunkMoveReply>) -> Seq<HunkMoveReplyModel> {
    replies.map_values(|r: HunkMoveReply| r@)
}

/// How moving a hunk ended.
#[derive(Debug, Clone, PartialEq, Eq)]
pub enum HunkMoveOutcome {
    Unchanged,
    Updated,
    PreconditionError { message: String },
    /// The hunk does not apply to the parent's file.
    HunkRejected { error: HunkError },
    /// The hunk starts past the end of the parent's file.
    HunkOutOfRange,
    Failed { cause: String },
    /// A reply did not answer the question asked.
    Unexpected,
}

/// `HunkMoveOutcome` by its models.
pub enum HunkMoveOutcomeModel {
    Unchanged,
    Updated,
    PreconditionError { message: Seq<char> },
    HunkRejected { error: HunkFailure },
    HunkOutOfRange,
    Failed { cause: Seq<char> },
    Unexpected,
}

impl View for HunkMoveOutcome {
    type V = HunkMoveOutcomeModel;

    open spec fn view(&self) -> HunkMoveOutcomeModel {
        match self {
            HunkMoveOutcome::Unchanged => HunkMoveOutcomeModel::Unchanged,
            HunkMoveOutcome::Updated => HunkMoveOutcomeModel::Updated,
            HunkMoveOutcome::PreconditionError { message } =>
                HunkMoveOutcomeModel::PreconditionError { message: message@ },
            HunkMoveOutcome::HunkRejected { error } => HunkMoveOutcomeModel::HunkRejected {
                error: error@,
            },
            HunkMoveOutcome::HunkOutOfRange => HunkMoveOutcomeModel::HunkOutOfRange,
            HunkMoveOutcome::Failed { cause } => HunkMoveOutcomeModel::Failed { cause: cause@ },
            HunkMoveOutcome::Unexpected => HunkMoveOutcomeModel::Unexpected,
        }
    }
}

/// The next step of moving a hunk.
#[derive(Debug, Clone, PartialEq, Eq)]
pub enum HunkMoveStep {
    Ask { request: HunkMoveRequest },
    Done { outcome: HunkMoveOutcome },
}

/// `HunkMoveStep` by its models.
pub enum HunkMoveStepModel {
    Ask { request: HunkMoveRequestModel },
    Done { outcome: HunkMoveOutcomeModel },
}

impl View for HunkMoveStep {
    type V = HunkMoveStepModel;

    open spec fn view(&self) -> HunkMoveStepModel {
        match self {
            HunkMoveStep::Ask { request } => HunkMoveStepModel::Ask { request: request@ },
            HunkMoveStep::Done { outcome } => HunkMoveStepModel::Done { outcome: outcome@ },
        }
    }
}

/// Asking for `request`.
pub open spec fn ask(request: HunkMoveRequestModel) -> HunkMoveStepModel {
    HunkMoveStepModel::Ask { request }
}

/// Ending with `outcome`.
pub open spec fn done(outcome: HunkMoveOutcomeModel) -> HunkMoveStepModel {
    HunkMoveStepModel::Done { outcome }
}

/// Ending with a failure carrying `cause`.
pub open spec fn failed(cause: Seq<char>) -> HunkMoveStepModel {
    done(HunkMoveOutcomeModel::Failed { cause })
}

/// Finishing with `description`, the reply expected at position `i`.
pub open spec fn finish_at(description: Seq<char>, replies: Seq<HunkMoveReplyModel>, i: int) -> HunkMoveStepModel {
    if replies.len() <= i {
        ask(HunkMoveRequestModel::Finish { description })
    } else {
        match replies[i] {
            HunkMoveReplyModel::Finished { changed } => done(
                if changed {
                    HunkMoveOutcomeModel::Updated
                } else {
                    HunkMoveOutcomeModel::Unchanged
                },
            ),
            HunkMoveReplyModel::Failed { cause } => failed(cause),
            _ => done(HunkMoveOutcomeModel::Unexpected),
        }
    }
}

/// After the source was rewritten (reply 3): a descendant target gets the
/// rewritten source as its only parent, unless it is a merge; any other
/// target gets the hunk merged into its tree, rewritten only when that tree
/// changed.
pub open spec fn after_source(descendant: bool, target_parents: nat, description: Seq<char>, replies: Seq<HunkMoveReplyModel>) -> HunkMoveStepModel {
    if descendant {
        if target_parents > 1 {
            done(
                HunkMoveOutcomeModel::PreconditionError {
                    message: "Moving a hunk to a descendant merge commit is not yet supported."@,
                },
            )
        } else if replies.len() <= 4 {
            ask(HunkMoveRequestModel::ReparentTarget)
        } else {
            match replies[4] {
                HunkMoveReplyModel::Rewritten => finish_at(description, replies, 5),
                HunkMoveReplyModel::Failed { cause } => failed(cause),
                _ => done(HunkMoveOutcomeModel::Unexpected),
            }
        }
    } else if replies.len() <= 4 {
        ask(HunkMoveRequestModel::MergeIntoTarget)
    } else {
        match replies[4] {
            HunkMoveReplyModel::TargetMerged { changed } => {
                if !changed {
                    finish_at(description, replies, 5)
                } else if replies.len() <= 5 {
                    ask(HunkMoveRequestModel::RewriteTargetTree)
                } else {
                    match replies[5] {
                        HunkMoveReplyModel::Rewritten => finish_at(description, replies, 6),
                        HunkMoveReplyModel::Failed { cause } => failed(cause),
                        _ => done(HunkMoveOutcomeModel::Unexpected),
                    }
                }
            },
            HunkMoveReplyModel::Failed { cause } => failed(cause),
            _ => done(HunkMoveOutcomeModel::Unexpected),
        }
    }
}

/// After the parent's file with the hunk applied, `content`, was computed:
/// write it (reply 2); a source left empty cannot move its hunk to a
/// descendant; otherwise the source is abandoned when left empty and
/// rewritten otherwise (reply 3).
pub open spec fn after_hunk(descendant: bool, target_parents: nat, description: Seq<char>, content: Seq<u8>, replies: Seq<HunkMoveReplyModel>) -> HunkMoveStepModel {
    if replies.len() <= 2 {
        ask(HunkMoveRequestModel::WriteHunk { content })
    } else {
        match replies[2] {
            HunkMoveReplyModel::HunkWritten { source_emptied } => {
                if source_emptied && descendant {
                    done(
                        HunkMoveOutcomeModel::PreconditionError {
                            message: "Moving a hunk from a commit that becomes empty to a descendant is not yet supported."@,
                        },
                    )
                } else if replies.len() <= 3 {
                    ask(HunkMoveRequestModel::RewriteSource { abandon: source_emptied })
                } else {
                    match replies[3] {
                        HunkMoveReplyModel::Rewritten => after_source(
                            descendant,
                            target_parents,
                            description,
                            replies,
                        ),
                        HunkMoveReplyModel::Failed { cause } => failed(cause),
                        _ => done(HunkMoveOutcomeModel::Unexpected),
                    }
                }
            },
            HunkMoveReplyModel::Failed { cause } => failed(cause),
            _ => done(HunkMoveOutcomeModel::Unexpected),
        }
    }
}

/// The step of moving `hunk` of the file `path` after the replies
/// `replies`: inspect the commits (reply 0), refuse a source with other
/// than one parent, and fail on a path that is not a repository path; read
/// the parent's file (reply 1) and apply the hunk to it; then as
/// `after_hunk` says, finishing with the description naming the path and
/// the two commits.
pub open spec fn hunk_move_next(path: Seq<char>, hunk: &ChangeHunk, replies: Seq<HunkMoveReplyModel>) -> HunkMoveStepModel {
    if replies.len() == 0 {
        ask(HunkMoveRequestModel::Inspect)
    } else {
        match replies[0] {
            HunkMoveReplyModel::Inspected {
                source_parents,
                target_is_descendant,
                target_parents,
                source_hex,
                target_hex,
            } => {
                if source_parents != 1 {
                    done(
                        HunkMoveOutcomeModel::PreconditionError {
                            message: "Cannot move hunk from a merge commit yet"@,
                        },
                    )
                } else if !valid_repo_path(path) {
                    failed(invalid_path_message(path))
                } else if replies.len() == 1 {
                    ask(HunkMoveRequestModel::ReadParentFile)
                } else {
                    match replies[1] {
                        HunkMoveReplyModel::ParentFile { content } => {
                            if hunk_start(hunk) > content_lines(content).len() {
                                done(HunkMoveOutcomeModel::HunkOutOfRange)
                            } else {
                                match hunk_result(content, hunk) {
                                    Ok(bytes) => after_hunk(
                                        target_is_descendant,
                                        target_parents,
                                        hunk_move_description(path, source_hex, target_hex),
                                        bytes,
                                        replies,
                                    ),
                                    Err(error) => done(HunkMoveOutcomeModel::HunkRejected { error }),
                                }
                            }
                        },
                        HunkMoveReplyModel::Failed { cause } => failed(cause),
                        _ => done(HunkMoveOutcomeModel::Unexpected),
                    }
                }
            },
            HunkMoveReplyModel::Failed { cause } => failed(cause),
            _ => done(HunkMoveOutcomeModel::Unexpected),
        }
    }
}

fn ask_for(request: HunkMoveRequest) -> (step: HunkMoveStep)
    ensures
        step@ == ask(request@),
{
    HunkMoveStep::Ask { request }
}

fn end_with(outcome: HunkMoveOutcome) -> (step: HunkMoveStep)
    ensures
        step@ == done(outcome@),
{
    HunkMoveStep::Done { outcome }
}

fn precondition(message: &str) -> (step: HunkMoveStep)
    ensures
        step@ == done(HunkMoveOutcomeModel::PreconditionError { message: message@ }),
{
    end_with(HunkMoveOutcome::PreconditionError { message: owned(message) })
}

fn failure(cause: &String) -> (step: HunkMoveStep)
    ensures
        step@ == failed(cause@),
{
    end_with(HunkMoveOutcome::Failed { cause: cause.clone() })
}

fn finish_step(description: &String, replies: &Vec<HunkMoveReply>, i: usize) -> (step: HunkMoveStep)
    ensures
        step@ == finish_at(description@, hunk_replies_model(replies@), i as int),
{
    if replies.len() <= i {
        ask_for(HunkMoveRequest::Finish { description: description.clone() })
    } else {
        match &replies[i] {
            HunkMoveReply::Finished { changed } => end_with(
                if *changed {
                    HunkMoveOutcome::Updated
                } else {
                    HunkMoveOutcome::Unchanged
                },
            ),
            HunkMoveReply::Failed { cause } => failure(cause),
            _ => end_with(HunkMoveOutcome::Unexpected),
        }
    }
}

fn source_rewritten_step(descendant: bool, target_parents: usize, description: &String, replies: &Vec<HunkMoveReply>) -> (step: HunkMoveStep)
    ensures
        step@ == after_source(
            descendant,
            target_parents as nat,
            description@,
            hunk_replies_model(replies@),
        ),
{
    if descendant {
        if target_parents > 1 {
            precondition("Moving a hunk to a descendant merge commit is not yet supported.")
        } else if replies.len() <= 4 {
            ask_for(HunkMoveRequest::ReparentTarget)
        } else {
            match &replies[4] {
                HunkMoveReply::Rewritten => finish_step(description, replies, 5),
                HunkMoveReply::Failed { cause } => failure(cause),
                _ => end_with(HunkMoveOutcome::Unexpected),
            }
        }
    } else if replies.len() <= 4 {
        ask_for(HunkMoveRequest::MergeIntoTarget)
    } else {
        match &replies[4] {
            HunkMoveReply::TargetMerged { changed } => {
                if !*changed {
                    finish_step(description, replies, 5)
                } else if replies.len() <= 5 {
                    ask_for(HunkMoveRequest::RewriteTargetTree)
                } else {
                    match &replies[5] {
                        HunkMoveReply::Rewritten => finish_step(description, replies, 6),
                        HunkMoveReply::Failed { cause } => failure(cause),
                        _ => end_with(HunkMoveOutcome::Unexpected),
                    }
                }
            },
            HunkMoveReply::Failed { cause } => failure(cause),
            _ => end_with(HunkMoveOutcome::Unexpected),
        }
    }
}

fn hunk_applied_step(descendant: bool, target_parents: usize, description: &String, content: Vec<u8>, replies: &Vec<HunkMoveReply>) -> (step: HunkMoveStep)
    ensures
        step@ == after_hunk(
            descendant,
            target_parents as nat,
            description@,
            content@,
            hunk_replies_model(replies@),
        ),
{
    if replies.len() <= 2 {
        ask_for(HunkMoveRequest::WriteHunk { content })
    } else {
        match &replies[2] {
            HunkMoveReply::HunkWritten { source_emptied } => {
                if *source_emptied && descendant {
                    precondition(
                        "Moving a hunk from a commit that becomes empty to a descendant is not yet supported.",
                    )
                } else if replies.len() <= 3 {
                    ask_for(HunkMoveRequest::RewriteSource { abandon: *source_emptied })
                } else {
                    match &replies[3] {
                        HunkMoveReply::Rewritten => source_rewritten_step(
                            descendant,
                            target_parents,
                            description,
                            replies,
                        ),
                        HunkMoveReply::Failed { cause } => failure(cause),
                        _ => end_with(HunkMoveOutcome::Unexpected),
                    }
                }
            },
            HunkMoveReply::Failed { cause } => failure(cause),
            _ => end_with(HunkMoveOutcome::Unexpected),
        }
    }
}

impl MoveHunk {
    /// The next step of moving the hunk after the replies `replies`.
    pub fn execute(&self, replies: &Vec<HunkMoveReply>) -> (step: HunkMoveStep)
        ensures
            step@ == hunk_move_next(self.path.repo_path@, &self.hunk, hunk_replies_model(replies@)),
    {
        if replies.len() == 0 {
            return ask_for(HunkMoveRequest::Inspect);
        }
        match &replies[0] {
            HunkMoveReply::Inspected {
                source_parents,
                target_is_descendant,
                target_parents,
                source_hex,
                target_hex,
            } => {
                if *source_parents != 1 {
                    precondition("Cannot move hunk from a merge commit yet")
                } else if !is_valid_repo_path(&self.path.repo_path) {
                    end_with(
                        HunkMoveOutcome::Failed {
                            cause: invalid_path_message_of(&self.path.repo_path),
                        },
                    )
                } else if replies.len() == 1 {
                    ask_for(HunkMoveRequest::ReadParentFile)
                } else {
                    match &replies[1] {
                        HunkMoveReply::ParentFile { content } => {
                            match try_apply_hunk(content.as_slice(), &self.hunk) {
                                None => end_with(HunkMoveOutcome::HunkOutOfRange),
                                Some(Ok(bytes)) => {
                                    let description = hunk_move_description_of(
                                        &self.path.repo_path,
                                        source_hex,
                                        target_hex,
                                    );
                                    hunk_applied_step(
                                        *target_is_descendant,
                                        *target_parents,
                                        &description,
                                        bytes,
                                        replies,
                                    )
                                },
                                Some(Err(error)) => end_with(HunkMoveOutcome::HunkRejected { error }),
                            }
                        },
                        HunkMoveReply::Failed { cause } => failure(cause),
                        _ => end_with(HunkMoveOutcome::Unexpected),
                    }
                }
            },
            HunkMoveReply::Failed { cause } => failure(cause),
            _ => end_with(HunkMoveOutcome::Unexpected),
        }
    }
}


/// A step that changes commits.
pub open spec fn rewrites_commits(step: HunkMoveStepModel) -> bool {
    ||| step matches HunkMoveStepModel::Ask { request: HunkMoveRequestModel::RewriteSource { .. } }
    ||| step matches HunkMoveStepModel::Ask { request: HunkMoveRequestModel::ReparentTarget }
    ||| step matches HunkMoveStepModel::Ask { request: HunkMoveRequestModel::MergeIntoTarget }
    ||| step matches HunkMoveStepModel::Ask { request: HunkMoveRequestModel::RewriteTargetTree }
    ||| step matches HunkMoveStepModel::Ask { request: HunkMoveRequestModel::Finish { .. } }
}

/// No commit is rewritten unless the source has exactly one parent and the
/// hunk applied cleanly to that parent's file.
pub proof fn law_rewrite_only_after_clean_hunk(path: Seq<char>, hunk: &ChangeHunk, replies: Seq<HunkMoveReplyModel>)
    requires
        rewrites_commits(hunk_move_next(path, hunk, replies)),
    ensures
        replies.len() >= 3,
        valid_repo_path(path),
        replies[0] matches HunkMoveReplyModel::Inspected { source_parents, .. } && source_parents
            == 1,
        replies[1] matches HunkMoveReplyModel::ParentFile { content } && hunk_start(hunk)
            <= content_lines(content).len() && hunk_result(content, hunk) is Ok,
{
}

/// The source is abandoned exactly when the hunk was all it changed, and
/// never when the target descends from it.
pub proof fn law_abandon_only_emptied_source(path: Seq<char>, hunk: &ChangeHunk, replies: Seq<HunkMoveReplyModel>, abandon: bool)
    requires
        hunk_move_next(path, hunk, replies) == ask(HunkMoveRequestModel::RewriteSource { abandon }),
    ensures
        replies.len() == 3,
        replies[2] == (HunkMoveReplyModel::HunkWritten { source_emptied: abandon }),
        replies[0] matches HunkMoveReplyModel::Inspected { target_is_descendant, .. } && !(abandon
            && target_is_descendant),
{
}

/// A path that is not a repository path ends the move with a failure as
/// soon as the commits are inspected, before the parent's file is asked
/// for.
pub proof fn law_invalid_path_fails_before_reading(path: Seq<char>, hunk: &ChangeHunk, replies: Seq<HunkMoveReplyModel>)
    requires
        !valid_repo_path(path),
        replies.len() >= 1,
        replies[0] matches HunkMoveReplyModel::Inspected { source_parents, .. } && source_parents
            == 1,
    ensures
        hunk_move_next(path, hunk, replies) == failed(invalid_path_message(path)),
        hunk_move_next(path, hunk, replies) != ask(HunkMoveRequestModel::ReadParentFile),
{
}

/// The move is finished only with the description that names the file and
/// the two commits' hashes as the inspection gave them.
pub proof fn law_finish_describes_move(path: Seq<char>, hunk: &ChangeHunk, replies: Seq<HunkMoveReplyModel>, description: Seq<char>)
    requires
        hunk_move_next(path, hunk, replies) == ask(HunkMoveRequestModel::Finish { description }),
    ensures
        replies.len() >= 1,
        replies[0] matches HunkMoveReplyModel::Inspected { source_hex, target_hex, .. }
            && description == hunk_move_description(path, source_hex, target_hex),
{
}

/// Moving a hunk to a target that descends from the source, when each
/// step succeeds: once the source is rewritten the target is reparented
/// onto it, once that is done the transaction is finished with the
/// description naming the file and both commits, and the move then reports
/// whether the repository changed.
pub proof fn law_descendant_move_finishes_after_reparent(
    path: Seq<char>,
    hunk: &ChangeHunk,
    content: Seq<u8>,
    source_hex: Seq<char>,
    target_hex: Seq<char>,
    target_parents: nat,
    changed: bool,
)
    requires
        valid_repo_path(path),
        hunk_start(hunk) <= content_lines(content).len(),
        hunk_result(content, hunk) is Ok,
        target_parents <= 1,
    ensures
        ({
            let inspected = HunkMoveReplyModel::Inspected {
                source_parents: 1,
                target_is_descendant: true,
                target_parents,
                source_hex,
                target_hex,
            };
            let before_reparent = seq![
                inspected,
                HunkMoveReplyModel::ParentFile { content },
                HunkMoveReplyModel::HunkWritten { source_emptied: false },
                HunkMoveReplyModel::Rewritten,
            ];
            let reparented = before_reparent.push(HunkMoveReplyModel::Rewritten);
            &&& hunk_move_next(path, hunk, before_reparent) == ask(HunkMoveRequestModel::ReparentTarget)
            &&& hunk_move_next(path, hunk, reparented) == ask(
                HunkMoveRequestModel::Finish {
                    description: "move hunk in file "@ + path + " from "@ + source_hex + " to "@
                        + target_hex,
                },
            )
            &&& hunk_move_next(path, hunk, reparented.push(HunkMoveReplyModel::Finished { changed }))
                == done(
                if changed {
                    HunkMoveOutcomeModel::Updated
                } else {
                    HunkMoveOutcomeModel::Unchanged
                },
            )
        }),
{
}

/// Moving a hunk to a target that does not descend from the source, when
/// each step succeeds: the source's parent file gets the hunk, the source
/// is abandoned exactly when the hunk was all it changed, the hunk is
/// merged into the target, whose tree is rewritten only when the merge
/// changed it, and the transaction is then finished with the description
/// naming the file and both commits.
pub proof fn law_unrelated_move_merges_into_target(
    path: Seq<char>,
    hunk: &ChangeHunk,
    content: Seq<u8>,
    source_hex: Seq<char>,
    target_hex: Seq<char>,
    target_parents: nat,
    emptied: bool,
)
    requires
        valid_repo_path(path),
        hunk_start(hunk) <= content_lines(content).len(),
        hunk_result(content, hunk) is Ok,
    ensures
        ({
            let inspected = HunkMoveReplyModel::Inspected {
                source_parents: 1,
                target_is_descendant: false,
                target_parents,
                source_hex,
                target_hex,
            };
            let read = seq![inspected, HunkMoveReplyModel::ParentFile { content }];
            let written = read.push(HunkMoveReplyModel::HunkWritten { source_emptied: emptied });
            let rewritten = written.push(HunkMoveReplyModel::Rewritten);
            let finish = ask(
                HunkMoveRequestModel::Finish {
                    description: "move hunk in file "@ + path + " from "@ + source_hex + " to "@
                        + target_hex,
                },
            );
            &&& hunk_move_next(path, hunk, seq![inspected]) == ask(HunkMoveRequestModel::ReadParentFile)
            &&& hunk_move_next(path, hunk, read) == ask(
                HunkMoveRequestModel::WriteHunk { content: hunk_result(content, hunk)->Ok_0 },
            )
            &&& hunk_move_next(path, hunk, written) == ask(
                HunkMoveRequestModel::RewriteSource { abandon: emptied },
            )
            &&& hunk_move_next(path, hunk, rewritten) == ask(HunkMoveRequestModel::MergeIntoTarget)
            &&& hunk_move_next(
                path,
                hunk,
                rewritten.push(HunkMoveReplyModel::TargetMerged { changed: false }),
            ) == finish
            &&& hunk_move_next(
                path,
                hunk,
                rewritten.push(HunkMoveReplyModel::TargetMerged { changed: true }),
            ) == ask(HunkMoveRequestModel::RewriteTargetTree)
            &&& hunk_move_next(
                path,
                hunk,
                rewritten.push(HunkMoveReplyModel::TargetMerged { changed: true }).push(
                    HunkMoveReplyModel::Rewritten,
                ),
            ) == finish
        }),
{
}

} // verus!
