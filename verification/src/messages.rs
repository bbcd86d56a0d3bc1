//! The messages the front end sends to the worker: revision identifiers,
//! references, file paths, hunks and the mutations themselves.

use vstd::prelude::*;

verus! {

/// A line range of one side of a diff; `start` counts from 1.
#[derive(Debug, Clone, PartialEq, Eq)]
pub struct FileRange {
    pub start: usize,
    pub len: usize,
}

/// Where a hunk sits in the old file and in the new one.
#[derive(Debug, Clone, PartialEq, Eq)]
pub struct HunkLocation {
    pub from_file: FileRange,
    pub to_file: FileRange,
}

/// Text held line by line.
#[derive(Debug, Clone, PartialEq, Eq)]
pub struct MultilineString {
    pub lines: Vec<String>,
}

/// One hunk of a unified diff: its location and its lines, each starting
/// with ` ` (context), `-` (removed) or `+` (added).
#[derive(Debug, Clone, PartialEq, Eq)]
pub struct ChangeHunk {
    pub location: HunkLocation,
    pub lines: MultilineString,
}


/// An identifier shown in its full hex form and split into the shortest
/// unique prefix and the rest.
pub struct IdModel {
    pub hex: Seq<char>,
    pub prefix: Seq<char>,
    pub rest: Seq<char>,
}

/// The identifier of a commit.
#[derive(Debug, Clone, PartialEq, Eq)]
pub struct CommitId {
    pub hex: String,
    pub prefix: String,
    pub rest: String,
}

/// The identifier of a change.
#[derive(Debug, Clone, PartialEq, Eq)]
pub struct ChangeId {
    pub hex: String,
    pub prefix: String,
    pub rest: String,
}

/// A revision: a change and the commit that currently holds it.
#[derive(Debug, Clone, PartialEq, Eq)]
pub struct RevId {
    pub change: ChangeId,
    pub commit: CommitId,
}

/// `RevId` by its identifiers' models.
pub struct RevIdModel {
    pub change: IdModel,
    pub commit: IdModel,
}

impl View for CommitId {
    type V = IdModel;

    open spec fn view(&self) -> IdModel {
        IdModel { hex: self.hex@, prefix: self.prefix@, rest: self.rest@ }
    }
}

impl View for ChangeId {
    type V = IdModel;

    open spec fn view(&self) -> IdModel {
        IdModel { hex: self.hex@, prefix: self.prefix@, rest: self.rest@ }
    }
}

impl View for RevId {
    type V = RevIdModel;

    open spec fn view(&self) -> RevIdModel {
        RevIdModel { change: self.change@, commit: self.commit@ }
    }
}

impl CommitId {
    /// A copy of this identifier.
    pub fn duplicate(&self) -> (id: Self)
        ensures
            id@ == self@,
    {
        CommitId { hex: self.hex.clone(), prefix: self.prefix.clone(), rest: self.rest.clone() }
    }
}

impl ChangeId {
    /// A copy of this identifier.
    pub fn duplicate(&self) -> (id: Self)
        ensures
            id@ == self@,
    {
        ChangeId { hex: self.hex.clone(), prefix: self.prefix.clone(), rest: self.rest.clone() }
    }
}

impl RevId {
    /// A copy of this revision identifier.
    pub fn duplicate(&self) -> (id: Self)
        ensures
            id@ == self@,
    {
        RevId { change: self.change.duplicate(), commit: self.commit.duplicate() }
    }
}

/// A path in the repository.
#[derive(Debug, Clone, PartialEq, Eq)]
pub struct TreePath {
    pub repo_path: String,
}

/// A named reference: a local bookmark, a bookmark on a remote, or a tag.
#[derive(Debug, Clone, PartialEq, Eq)]
pub enum StoreRef {
    LocalBookmark { branch_name: String },
    RemoteBookmark { branch_name: String, remote_name: String },
    Tag { tag_name: String },
}

/// Abandon the revisions of a revset.
#[derive(Debug, Clone, PartialEq, Eq)]
pub struct AbandonRevisions {
    pub revset: String,
}

/// Set the description of a revision.
#[derive(Debug, Clone, PartialEq, Eq)]
pub struct DescribeRevision {
    pub id: RevId,
    pub new_description: String,
    pub reset_author: bool,
}

/// Duplicate revisions.
#[derive(Debug, Clone, PartialEq, Eq)]
pub struct DuplicateRevisions {
    pub ids: Vec<RevId>,
}

/// Make a revision the working copy.
#[derive(Debug, Clone, PartialEq, Eq)]
pub struct CheckoutRevision {
    pub id: RevId,
}

/// Create an empty revision on top of the given parents.
#[derive(Debug, Clone, PartialEq, Eq)]
pub struct CreateRevision {
    pub parent_ids: Vec<RevId>,
}

/// Undo the last operation.
#[derive(Debug, Clone, PartialEq, Eq)]
pub struct UndoOperation;

/// Start tracking a remote bookmark.
#[derive(Debug, Clone, PartialEq, Eq)]
pub struct TrackBranch {
    pub store_ref: StoreRef,
}

/// Stop tracking a remote bookmark, or all remotes of a local bookmark.
#[derive(Debug, Clone, PartialEq, Eq)]
pub struct UntrackBranch {
    pub store_ref: StoreRef,
}

/// Create a bookmark or a tag at a revision.
#[derive(Debug, Clone, PartialEq, Eq)]
pub struct CreateRef {
    pub id: RevId,
    pub store_ref: StoreRef,
}

/// Delete a bookmark or a tag.
#[derive(Debug, Clone, PartialEq, Eq)]
pub struct DeleteRef {
    pub store_ref: StoreRef,
}

/// Point a bookmark or a tag at another revision.
#[derive(Debug, Clone, PartialEq, Eq)]
pub struct MoveRef {
    pub store_ref: StoreRef,
    pub to_id: RevId,
}

/// Fetch from git remotes.
#[derive(Debug, Clone, PartialEq, Eq)]
pub enum GitFetch {
    /// All bookmarks of one remote.
    AllBookmarks { remote_name: String },
    /// One bookmark from every remote.
    AllRemotes { branch_ref: StoreRef },
    /// One bookmark from one remote.
    RemoteBookmark { remote_name: String, branch_ref: StoreRef },
}

/// Rebase the revisions of a revset onto new parents.
#[derive(Debug, Clone, PartialEq, Eq)]
pub struct MoveRevisions {
    pub revset: String,
    pub parent_ids: Vec<RevId>,
}

/// Rebase a revision and its descendants onto new parents.
#[derive(Debug, Clone, PartialEq, Eq)]
pub struct MoveSource {
    pub id: RevId,
    pub parent_ids: Vec<CommitId>,
}

/// Copy the content of paths from one revision into another.
#[derive(Debug, Clone, PartialEq, Eq)]
pub struct CopyChanges {
    pub from_id: CommitId,
    pub to_id: RevId,
    pub paths: Vec<TreePath>,
}

/// Move the changes to paths from one revision into another.
#[derive(Debug, Clone, PartialEq, Eq)]
pub struct MoveChanges {
    pub from_id: RevId,
    pub to_id: CommitId,
    pub paths: Vec<TreePath>,
}

/// Create a revision between two others.
#[derive(Debug, Clone, PartialEq, Eq)]
pub struct CreateRevisionBetween {
    pub after_id: CommitId,
    pub before_id: RevId,
}

/// Rename a bookmark.
#[derive(Debug, Clone, PartialEq, Eq)]
pub struct RenameBranch {
    pub store_ref: StoreRef,
    pub new_name: String,
}

/// Move the revisions of a revset between two revisions.
#[derive(Debug, Clone, PartialEq, Eq)]
pub struct InsertRevisions {
    pub revset: String,
    pub after_id: RevId,
    pub before_id: RevId,
}


/// Back out the changes of revisions into the working copy.
#[derive(Debug, Clone, PartialEq, Eq)]
pub struct BackoutRevisions {
    pub ids: Vec<RevId>,
}

/// Move one hunk of a file's changes from one revision to another.
#[derive(Debug, Clone, PartialEq, Eq)]
pub struct MoveHunk {
    pub from_id: RevId,
    pub to_id: CommitId,
    pub path: TreePath,
    pub hunk: ChangeHunk,
}

} // verus!
